use spin_sync::SpinLockFlag;
use spin_sync::Spin;
use spin_sync::SpinLock;
use spin_sync::SPIN_LIMIT;
use std::sync::atomic::AtomicBool;
use std::sync::atomic::AtomicUsize;
use std::sync::atomic::Ordering;
use std::sync::Arc;
use threadpool::ThreadPool;

#[test]
fn safe_spin_lock() {
    let data: Arc<SpinLock<Vec<usize>>> = Arc::new(SpinLock::new(Vec::new()));
    let pool = ThreadPool::new(20);

    for i in 0..10 {
        let data = Arc::clone(&data);
        pool.execute(move || {
            data.lock().unwrap().push(i);
        });
    }
    for i in 10..20 {
        let data = Arc::clone(&data);
        pool.execute(move || {
            data.lock().unwrap().push(i);
        });
    }
    pool.join();

    for i in data.lock().unwrap().iter() {
        println!("{}, ", i);
    }
    let mut seen: Vec<usize> = data.lock().unwrap().clone();
    seen.sort();
    assert_eq!(seen, (0..20).collect::<Vec<usize>>());
}

#[test]
fn poison_spin_lock() {
    let data: Arc<SpinLock<Vec<usize>>> = Arc::new(SpinLock::new(Vec::new()));
    let pool = ThreadPool::new(10);

    let held = Arc::clone(&data);
    pool.execute(move || {
        let _data = held.lock().unwrap();
        panic!("uh oh the guard is never dropped!");
    });
    pool.join();
    while pool.panic_count() == 0 {
        std::hint::spin_loop();
    }

    for i in 0..10 {
        let data = Arc::clone(&data);
        pool.execute(move || {
            data.lock().unwrap().push(i);
        });
    }
    pool.join();

    println!("Data:");
    for i in data.lock().unwrap().iter() {
        println!("{}, ", i);
    }
    let mut seen: Vec<usize> = data.lock().unwrap().clone();
    seen.sort();
    assert_eq!(seen, (0..10).collect::<Vec<usize>>());
}

#[test]
fn ten_threads_push_each_value_once() {
    let data: Arc<SpinLock<Vec<usize>>> = Arc::new(SpinLock::new(Vec::new()));
    let pool = ThreadPool::new(10);
    for i in 0..10 {
        let data = Arc::clone(&data);
        pool.execute(move || {
            data.lock().unwrap().push(i);
        });
    }
    pool.join();

    let guard = data.lock().unwrap();
    assert_eq!(guard.len(), 10);
    for i in 0..10 {
        assert_eq!(guard.iter().filter(|&&seen| seen == i).count(), 1);
    }
}

#[test]
fn one_guard_at_a_time() {
    let lock: Arc<SpinLock<usize>> = Arc::new(SpinLock::new(0));
    let occupied = Arc::new(AtomicBool::new(false));
    let overlaps = Arc::new(AtomicUsize::new(0));
    let pool = ThreadPool::new(8);
    for _ in 0..8 {
        let lock = Arc::clone(&lock);
        let occupied = Arc::clone(&occupied);
        let overlaps = Arc::clone(&overlaps);
        pool.execute(move || {
            for _ in 0..500 {
                let mut guard = lock.lock().unwrap();
                if occupied.swap(true, Ordering::SeqCst) {
                    overlaps.fetch_add(1, Ordering::SeqCst);
                }
                let read = *guard;
                *guard = read + 1;
                occupied.store(false, Ordering::SeqCst);
            }
        });
    }
    pool.join();

    assert_eq!(pool.panic_count(), 0);
    assert_eq!(overlaps.load(Ordering::SeqCst), 0);
    assert_eq!(*lock.lock().unwrap(), 4000);
}

#[test]
fn guard_reads_what_the_last_guard_wrote() {
    let lock = SpinLock::new(String::from("first"));
    {
        let mut guard = lock.lock().unwrap();
        assert_eq!(*guard, "first");
        guard.push_str(" and second");
    }
    {
        let mut guard = lock.lock().unwrap();
        assert_eq!(*guard, "first and second");
        *guard = String::from("third");
    }
    assert_eq!(*lock.lock().unwrap(), "third");
}

#[test]
fn new_lock_holds_its_value() {
    let lock = SpinLock::new(41u64);
    assert_eq!(*lock.lock().unwrap(), 41);
}

#[test]
fn dropping_the_guard_frees_the_lock() {
    let lock = SpinLock::new(0u8);
    for round in 0..100u8 {
        let mut guard = lock.lock().unwrap();
        *guard = round;
    }
    assert_eq!(*lock.lock().unwrap(), 99);
}

#[test]
fn new_flag_is_free() {
    let flag = SpinLockFlag::new();
    assert!(take(&flag));
}

#[test]
fn held_flag_refuses_every_attempt() {
    let flag = SpinLockFlag::new();
    assert!(flag.lock());
    for _ in 0..100 {
        assert!(!flag.try_lock());
    }
}

#[test]
fn unlock_frees_the_flag() {
    let flag = SpinLockFlag::new();
    assert!(flag.lock());
    flag.unlock();
    assert!(take(&flag));
    assert!(!flag.try_lock());
    flag.unlock();
    assert!(flag.lock());
    assert!(!flag.try_lock());
}

#[test]
fn flag_guards_a_counter() {
    let flag = Arc::new(SpinLockFlag::new());
    let inside = Arc::new(AtomicUsize::new(0));
    let overlaps = Arc::new(AtomicUsize::new(0));
    let pool = ThreadPool::new(4);
    for _ in 0..4 {
        let flag = Arc::clone(&flag);
        let inside = Arc::clone(&inside);
        let overlaps = Arc::clone(&overlaps);
        pool.execute(move || {
            for _ in 0..250 {
                assert!(flag.lock());
                if inside.fetch_add(1, Ordering::SeqCst) != 0 {
                    overlaps.fetch_add(1, Ordering::SeqCst);
                }
                inside.fetch_sub(1, Ordering::SeqCst);
                flag.unlock();
            }
        });
    }
    pool.join();
    assert_eq!(overlaps.load(Ordering::SeqCst), 0);
    assert!(take(&flag));
}

/// Attempts until the weak exchange goes through: a free flag may refuse a
/// single attempt, but not for long.
fn take(flag: &SpinLockFlag) -> bool {
    for _ in 0..1000 {
        if flag.try_lock() {
            return true;
        }
    }
    false
}

#[test]
fn spin_ends_when_the_attempt_went_through() {
    assert_eq!(Spin::decide(0, true), Spin::Taken);
    assert_eq!(Spin::decide(17, true), Spin::Taken);
    assert_eq!(Spin::decide(SPIN_LIMIT, true), Spin::Taken);
}

#[test]
fn spin_goes_on_below_the_limit() {
    assert_eq!(Spin::decide(0, false), Spin::Again);
    assert_eq!(Spin::decide(SPIN_LIMIT - 1, false), Spin::Again);
}

#[test]
fn spin_gives_up_at_the_limit() {
    assert_eq!(SPIN_LIMIT, u64::MAX);
    assert_eq!(Spin::decide(SPIN_LIMIT, false), Spin::GivenUp);
}

#[test]
fn spin_for_the_flag_goes_by_the_exchange() {
    assert_eq!(SpinLockFlag::after_attempt(3, Ok(false)), Spin::Taken);
    assert_eq!(SpinLockFlag::after_attempt(3, Err(true)), Spin::Again);
    assert_eq!(SpinLockFlag::after_attempt(3, Err(false)), Spin::Again);
    assert_eq!(SpinLockFlag::after_attempt(SPIN_LIMIT, Err(true)), Spin::GivenUp);
    assert_eq!(SpinLockFlag::after_attempt(SPIN_LIMIT, Ok(false)), Spin::Taken);
}

#[test]
fn guard_leaves_the_cell_before_the_flag_is_free() {
    let lock: Arc<SpinLock<usize>> = Arc::new(SpinLock::new(0));
    let pool = ThreadPool::new(4);
    for _ in 0..4 {
        let lock = Arc::clone(&lock);
        pool.execute(move || {
            for _ in 0..500 {
                let mut guard = lock.lock().unwrap();
                *guard += 1;
            }
        });
    }
    pool.join();
    assert_eq!(pool.panic_count(), 0);
    assert_eq!(*lock.lock().unwrap(), 2000);
}
