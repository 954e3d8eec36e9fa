//! A spin lock that owns the value it protects, and the guard through which
//! the value is reached.

use crate::flag::Spin;
use crate::flag::SpinLockFlag;
use crate::flag::SPIN_LIMIT;
use crate::storage::contents;
use crate::storage::contents_mut;
use crate::storage::enter;
use crate::storage::entered;
use std::sync::Mutex;
use std::sync::MutexGuard;
use vstd::prelude::*;

verus! {

/// A value of type `T` behind a [`SpinLockFlag`].
///
/// Threads share the lock by reference and take turns at the value: each calls
/// [`SpinLock::lock`] and works through the [`Guard`] it gets. The lock can be
/// shared between threads when `T` can be sent between them; `T` itself need
/// not be shareable.
///
/// A thread that ends without dropping its guard leaves the flag held for
/// good, and every later `lock` spins to its limit and comes back without a
/// guard: there is no poisoning and no recovery.
///
/// The value lives in a storage cell that a guard enters after it has taken
/// the flag and leaves before it gives the flag back. No thread enters the
/// cell without the flag, and none waits for the cell.
#[verifier::reject_recursive_types(T)]
pub struct SpinLock<T> {
    protector: SpinLockFlag,
    value: Mutex<T>,
}

/// The duty to give a flag back, which a [`Guard`] carries for its lock.
/// Dropping it makes the release store.
pub struct Release<'a> {
    flag: &'a SpinLockFlag,
}

/// Exclusive access to the value of a [`SpinLock`], for as long as the guard
/// lives.
///
/// Only [`SpinLock::lock`] makes a guard, and only for the call that took the
/// flag. Dropping the guard releases the flag; nothing else does.
///
/// The guard has no destructor of its own. Its fields are dropped in the
/// order in which they stand here: the access to the storage cell first, so
/// that the cell is left, and the duty to release last, so that the next
/// holder of the flag finds the cell free.
#[verifier::reject_recursive_types(T)]
pub struct Guard<'a, T> {
    guarded: &'a SpinLock<T>,
    access: MutexGuard<'a, T>,
    release: Release<'a>,
}

impl<'a> Release<'a> {
    /// The flag that is given back.
    pub closed spec fn flag(&self) -> &'a SpinLockFlag {
        self.flag
    }
}

impl<'a> Drop for Release<'a> {
    /// Releases the flag with one release store, on every way out of the
    /// scope that held the guard.
    fn drop(&mut self)
        ensures
            old(self).flag().released(),
        opens_invariants none
        no_unwind
    {
        self.flag.unlock();
    }
}

impl<T> SpinLock<T> {
    /// Whether this lock is made of a flag that was free when it was made
    /// and of what `Mutex::new` returns for `value`: a lock that was free and
    /// held `value` when it was made.
    pub closed spec fn made_with(&self, value: T) -> bool {
        &&& self.protector.made_free()
        &&& call_ensures(Mutex::<T>::new, (value,), self.value)
    }

    /// Whether `access` is what an attempt to enter the storage cell of this
    /// lock may give, where it found the cell free.
    pub closed spec fn admitted(&self, access: MutexGuard<'_, T>) -> bool {
        entered(&self.value, Some(access))
    }

    /// Whether an attempt to enter the storage cell of this lock was made and
    /// found the cell busy.
    pub closed spec fn shut(&self) -> bool {
        entered(&self.value, None)
    }

    /// The flag of this lock.
    pub closed spec fn flag(&self) -> &SpinLockFlag {
        &self.protector
    }

    /// A free lock around `value`.
    pub fn new(value: T) -> (lock: Self)
        ensures
            lock.made_with(value),
    {
        SpinLock { protector: SpinLockFlag::new(), value: Mutex::new(value) }
    }

    /// Takes the flag, spinning while another guard is alive, then enters the
    /// storage cell and returns the guard for the value.
    ///
    /// The spin for the flag is that of [`SpinLockFlag::lock`], and it has
    /// that call's limit: where the last attempt has failed as well, the
    /// result is `None` and the storage cell was not asked for. A guard is
    /// handed out by the call whose attempt took the flag, and by no other.
    ///
    /// Behind the flag the cell is free, since a guard leaves it before it
    /// gives the flag back. The call does not rest on that: a cell that it
    /// finds busy it asks for again, as [`Spin::after`] says, and where it
    /// gives up it gives the flag back and returns `None`.
    ///
    /// The guard knows the lock that made it, its access is one that an
    /// attempt to enter the storage cell of the lock gave, and the flag that
    /// it gives back is that of the lock. Of the value behind the guard no
    /// contract speaks: it is what the last guard left there.
    pub fn lock<'a>(&'a self) -> (guard: Option<Guard<'a, T>>)
        ensures
            exists|exchange: Result<bool, bool>|
                {
                    &&& #[trigger] self.flag().attempted(exchange)
                    &&& guard is Some ==> exchange is Ok
                    &&& guard is None && exchange is Ok ==> self.shut() && self.flag().released()
                },
            guard matches Some(held) ==> {
                &&& Guard::lock_of(&held) == self
                &&& self.admitted(Guard::access_of(&held))
                &&& Guard::flag_of(&held) == self.flag()
            },
    {
        let acquired = self.protector.lock();
        assert(self.flag() == &self.protector);
        assert(forall|exchange: Result<bool, bool>| #[trigger]
            self.protector.attempted(exchange) ==> self.flag().attempted(exchange));
        if !acquired {
            return None;
        }
        let mut failed: u64 = 0;
        loop
            invariant
                failed <= SPIN_LIMIT,
                exists|exchange: Result<bool, bool>|
                    #[trigger] self.flag().attempted(exchange) && exchange is Ok,
            decreases SPIN_LIMIT - failed,
        {
            let access = enter(&self.value);
            match Spin::decide(failed, access.is_some()) {
                Spin::Taken => {
                    return Some(
                        Guard {
                            guarded: self,
                            access: access.unwrap(),
                            release: Release { flag: &self.protector },
                        },
                    );
                },
                Spin::GivenUp => {
                    self.protector.unlock();
                    return None;
                },
                Spin::Again => {
                    std::hint::spin_loop();
                    failed = failed + 1;
                },
            }
        }
    }
}

impl<'a, T> Guard<'a, T> {
    /// The lock that made `guard`.
    pub closed spec fn lock_of(guard: &Guard<'a, T>) -> &'a SpinLock<T> {
        guard.guarded
    }

    /// The flag that `guard` gives back when it is dropped.
    pub closed spec fn flag_of(guard: &Guard<'a, T>) -> &'a SpinLockFlag {
        guard.release.flag
    }

    /// The access of `guard` to the storage cell of its lock.
    pub closed spec fn access_of(guard: &Guard<'a, T>) -> MutexGuard<'a, T> {
        guard.access
    }

    /// Whether `value` is the shared reference that `access` gives to what the
    /// cell holds: what `Deref` of the access returns.
    pub closed spec fn shows(access: &MutexGuard<'a, T>, value: &T) -> bool {
        call_ensures(contents::<T>, (access,), value)
    }

    /// Whether `value` is the exclusive reference that `access` gives to what
    /// the cell holds: what `DerefMut` returns for a loan of the access.
    pub closed spec fn lends(access: MutexGuard<'a, T>, value: &mut T) -> bool {
        exists|lent: &mut MutexGuard<'a, T>|
            *lent == access && #[trigger] call_ensures(contents_mut::<T>, (lent,), value)
    }
}

impl<'a, T> std::ops::Deref for Guard<'a, T> {
    type Target = T;

    /// The protected value, for reading: the reference that the guard's
    /// access to the storage cell gives.
    fn deref(&self) -> (value: &T)
        ensures
            Guard::shows(&Guard::access_of(self), value),
    {
        contents(&self.access)
    }
}

impl<'a, T> std::ops::DerefMut for Guard<'a, T> {
    /// The protected value, for writing: the reference that the guard's
    /// access to the storage cell gives while it is lent out. The guard stays
    /// the guard of the same lock, with the same flag to give back.
    fn deref_mut(&mut self) -> (value: &mut T)
        ensures
            Guard::lock_of(final(self)) == Guard::lock_of(old(self)),
            Guard::flag_of(final(self)) == Guard::flag_of(old(self)),
            Guard::lends(Guard::access_of(old(self)), value),
    {
        contents_mut(&mut self.access)
    }
}

} // verus!
