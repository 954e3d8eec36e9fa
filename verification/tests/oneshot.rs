use spin_sync::NotReady;
use spin_sync::OneshotChannel;
use spin_sync::SendError;
use std::sync::atomic::AtomicUsize;
use std::sync::atomic::Ordering;
use std::sync::Arc;
use threadpool::ThreadPool;

/// A payload that counts how often one of its kind is dropped.
#[derive(Debug)]
struct Counted {
    drops: Arc<AtomicUsize>,
}

impl Drop for Counted {
    fn drop(&mut self) {
        self.drops.fetch_add(1, Ordering::SeqCst);
    }
}

#[test]
fn oneshot_channel_drop() {
    const MESSAGE: &'static str = "Message text";
    let channel = Arc::new(OneshotChannel::new());
    let pool = ThreadPool::new(1);

    let sending = Arc::clone(&channel);
    pool.execute(move || {
        sending.send(MESSAGE).unwrap();
    });

    while !channel.is_message_ready() {
        std::hint::spin_loop();
    }

    assert_eq!(channel.receive().unwrap(), MESSAGE);
    pool.join();
}

#[test]
fn sent_text_is_received() {
    let channel = OneshotChannel::new();
    assert_eq!(channel.send(String::from("dynamically sized text")), Ok(()));
    assert!(channel.is_message_ready());
    assert_eq!(channel.receive(), Ok(String::from("dynamically sized text")));
}

#[test]
fn second_send_is_refused() {
    let channel = OneshotChannel::new();
    assert_eq!(channel.send(String::from("first")), Ok(()));
    assert_eq!(
        channel.send(String::from("second")),
        Err(SendError { message: String::from("second") })
    );
    assert_eq!(channel.receive(), Ok(String::from("first")));
}

#[test]
fn send_after_receive_is_refused() {
    let channel = OneshotChannel::new();
    assert_eq!(channel.send(1u32), Ok(()));
    assert_eq!(channel.receive(), Ok(1));
    assert_eq!(channel.send(2), Err(SendError { message: 2 }));
    assert!(!channel.is_message_ready());
    assert_eq!(channel.receive(), Err(NotReady));
}

#[test]
fn receive_before_send_fails() {
    let channel: OneshotChannel<u64> = OneshotChannel::new();
    assert!(!channel.is_message_ready());
    assert_eq!(channel.receive(), Err(NotReady));
    assert_eq!(channel.send(7), Ok(()));
    assert_eq!(channel.receive(), Ok(7));
}

#[test]
fn second_receive_fails() {
    let channel = OneshotChannel::new();
    assert_eq!(channel.send('x'), Ok(()));
    assert_eq!(channel.receive(), Ok('x'));
    assert!(!channel.is_message_ready());
    assert_eq!(channel.receive(), Err(NotReady));
}

#[test]
fn unreceived_message_is_dropped_once() {
    let drops = Arc::new(AtomicUsize::new(0));
    {
        let channel = OneshotChannel::new();
        assert!(channel.send(Counted { drops: Arc::clone(&drops) }).is_ok());
        assert_eq!(drops.load(Ordering::SeqCst), 0);
    }
    assert_eq!(drops.load(Ordering::SeqCst), 1);
}

#[test]
fn unused_channel_drops_nothing() {
    let drops = Arc::new(AtomicUsize::new(0));
    {
        let channel: OneshotChannel<Counted> = OneshotChannel::new();
        assert!(!channel.is_message_ready());
    }
    assert_eq!(drops.load(Ordering::SeqCst), 0);
}

#[test]
fn received_message_is_dropped_by_the_receiver() {
    let drops = Arc::new(AtomicUsize::new(0));
    {
        let channel = OneshotChannel::new();
        assert!(channel.send(Counted { drops: Arc::clone(&drops) }).is_ok());
        let message = channel.receive().unwrap();
        assert_eq!(drops.load(Ordering::SeqCst), 0);
        drop(message);
        assert_eq!(drops.load(Ordering::SeqCst), 1);
    }
    assert_eq!(drops.load(Ordering::SeqCst), 1);
}

#[test]
fn refused_message_comes_back_whole() {
    let drops = Arc::new(AtomicUsize::new(0));
    let channel = OneshotChannel::new();
    assert!(channel.send(Counted { drops: Arc::clone(&drops) }).is_ok());
    let refused = channel.send(Counted { drops: Arc::clone(&drops) }).unwrap_err();
    assert_eq!(drops.load(Ordering::SeqCst), 0);
    drop(refused);
    assert_eq!(drops.load(Ordering::SeqCst), 1);
    drop(channel);
    assert_eq!(drops.load(Ordering::SeqCst), 2);
}

#[test]
fn only_one_of_many_sends_wins() {
    let channel: Arc<OneshotChannel<usize>> = Arc::new(OneshotChannel::new());
    let accepted = Arc::new(AtomicUsize::new(0));
    let winner = Arc::new(AtomicUsize::new(usize::MAX));
    let pool = ThreadPool::new(8);
    for i in 0..8 {
        let channel = Arc::clone(&channel);
        let accepted = Arc::clone(&accepted);
        let winner = Arc::clone(&winner);
        pool.execute(move || match channel.send(i) {
            Ok(()) => {
                accepted.fetch_add(1, Ordering::SeqCst);
                winner.store(i, Ordering::SeqCst);
            }
            Err(refused) => assert_eq!(refused.message, i),
        });
    }
    pool.join();

    assert_eq!(pool.panic_count(), 0);
    assert_eq!(accepted.load(Ordering::SeqCst), 1);
    assert_eq!(channel.receive(), Ok(winner.load(Ordering::SeqCst)));
}

#[test]
fn only_one_of_many_receives_wins() {
    let channel: Arc<OneshotChannel<u8>> = Arc::new(OneshotChannel::new());
    assert_eq!(channel.send(9), Ok(()));
    let received = Arc::new(AtomicUsize::new(0));
    let pool = ThreadPool::new(8);
    for _ in 0..8 {
        let channel = Arc::clone(&channel);
        let received = Arc::clone(&received);
        pool.execute(move || match channel.receive() {
            Ok(message) => {
                assert_eq!(message, 9);
                received.fetch_add(1, Ordering::SeqCst);
            }
            Err(NotReady) => {}
        });
    }
    pool.join();

    assert_eq!(pool.panic_count(), 0);
    assert_eq!(received.load(Ordering::SeqCst), 1);
}

#[test]
fn unchecked_send_and_receive_hand_over_the_message() {
    let channel = OneshotChannel::new();
    assert_eq!(channel.receive_unchecked(), None);
    assert!(channel.send_unchecked(5i32).is_ok());
    assert!(channel.is_message_ready());
    assert_eq!(channel.receive_unchecked(), Some(5));
    assert_eq!(channel.receive_unchecked(), None);
}

#[test]
fn unchecked_receive_leaves_the_flag() {
    let channel = OneshotChannel::new();
    assert!(channel.send_unchecked(5i32).is_ok());
    assert_eq!(channel.receive_unchecked(), Some(5));
    assert!(channel.is_message_ready());
    assert_eq!(channel.receive(), Err(NotReady));
    assert!(!channel.is_message_ready());
}

#[test]
fn unchecked_send_does_not_claim_the_slot() {
    let channel = OneshotChannel::new();
    assert!(channel.send_unchecked(String::from("unchecked")).is_ok());
    assert_eq!(channel.send(String::from("checked")), Ok(()));
    assert_eq!(channel.receive(), Ok(String::from("checked")));
}

#[test]
fn send_behind_a_raised_flag_hands_the_message_back() {
    let channel = OneshotChannel::new();
    assert_eq!(
        channel.finish_send(true, String::from("late")),
        Err(SendError { message: String::from("late") })
    );
    assert!(!channel.is_message_ready());
    assert_eq!(channel.receive_unchecked(), None);
}

#[test]
fn send_behind_a_lowered_flag_stores_the_message() {
    let channel = OneshotChannel::new();
    assert_eq!(channel.finish_send(false, String::from("first")), Ok(()));
    assert!(channel.is_message_ready());
    assert_eq!(channel.receive(), Ok(String::from("first")));
}

#[test]
fn receive_behind_a_lowered_flag_fails() {
    let channel = OneshotChannel::new();
    assert!(channel.send_unchecked(4u8).is_ok());
    assert_eq!(channel.finish_receive(false), Err(NotReady));
    assert_eq!(channel.receive_unchecked(), Some(4));
}

#[test]
fn receive_behind_a_raised_flag_takes_what_is_there() {
    let channel = OneshotChannel::new();
    assert_eq!(channel.finish_receive(true), Err(NotReady));
    assert!(channel.send_unchecked(4u8).is_ok());
    assert_eq!(channel.finish_receive(true), Ok(4));
    assert_eq!(channel.finish_receive(true), Err(NotReady));
}

/// A payload that looks into its own channel when it is dropped.
struct Curious {
    channel: Arc<OneshotChannel<Curious>>,
    looks: Arc<AtomicUsize>,
}

impl Drop for Curious {
    fn drop(&mut self) {
        self.looks.fetch_add(1, Ordering::SeqCst);
        let _ready = self.channel.is_message_ready();
        let _found = self.channel.receive_unchecked();
    }
}

#[test]
fn replaced_message_is_dropped_outside_the_cell() {
    let looks = Arc::new(AtomicUsize::new(0));
    let channel: Arc<OneshotChannel<Curious>> = Arc::new(OneshotChannel::new());
    assert!(channel.send_unchecked(Curious { channel: Arc::clone(&channel), looks: Arc::clone(&looks) }).is_ok());
    assert_eq!(looks.load(Ordering::SeqCst), 0);
    assert!(channel.send_unchecked(Curious { channel: Arc::clone(&channel), looks: Arc::clone(&looks) }).is_ok());
    assert_eq!(looks.load(Ordering::SeqCst), 2);
    assert!(channel.receive_unchecked().is_none());
}

#[test]
fn checked_send_over_an_unchecked_one_drops_outside_the_cell() {
    let looks = Arc::new(AtomicUsize::new(0));
    let channel: Arc<OneshotChannel<Curious>> = Arc::new(OneshotChannel::new());
    assert!(channel.send_unchecked(Curious { channel: Arc::clone(&channel), looks: Arc::clone(&looks) }).is_ok());
    assert!(channel
        .send(Curious { channel: Arc::clone(&channel), looks: Arc::clone(&looks) })
        .is_ok());
    assert_eq!(looks.load(Ordering::SeqCst), 2);
}
