//! The lock flag: one atomic boolean, `false` while free and `true` while held.

use std::sync::atomic::AtomicBool;
use std::sync::atomic::Ordering;
use vstd::prelude::*;

verus! {

/// `std::hint::spin_loop`: a processor hint for busy-wait loops. It computes
/// nothing and returns nothing, so nothing is claimed of it.
pub assume_specification[ std::hint::spin_loop ]();

/// `AtomicBool::store`. `std` documents that the call panics when `order` is
/// `Acquire` or `AcqRel`; `requires` leaves those two out, and the contract
/// claims that the store then returns without unwinding. It returns nothing.
#[verifier::external_body]
pub(crate) fn store(flag: &AtomicBool, value: bool, order: Ordering)
    requires
        order is Relaxed || order is Release || order is SeqCst,
    opens_invariants none
    no_unwind
{
    flag.store(value, order);
}

/// The number of attempts that [`SpinLockFlag::lock`] makes after its first
/// one has failed, before it stops spinning.
pub const SPIN_LIMIT: u64 = u64::MAX;

/// What a spin does after one attempt.
#[derive(Debug, PartialEq, Eq, Clone, Copy)]
pub enum Spin {
    /// The attempt went through: the spin ends with what it was after.
    Taken,
    /// The attempt failed and the limit is not reached: the spin hints the
    /// processor and attempts again.
    Again,
    /// The attempt failed and [`SPIN_LIMIT`] attempts have failed before it:
    /// the spin ends without what it was after.
    GivenUp,
}

impl Spin {
    /// What a spin does after an attempt that went through or not, as `taken`
    /// says, when `failed` attempts have failed before it.
    pub open spec fn after(failed: u64, taken: bool) -> Spin {
        if taken {
            Spin::Taken
        } else if failed < SPIN_LIMIT {
            Spin::Again
        } else {
            Spin::GivenUp
        }
    }

    /// Decides what a spin does after an attempt that went through or not, as
    /// `taken` says, when `failed` attempts have failed before it.
    pub fn decide(failed: u64, taken: bool) -> (next: Spin)
        ensures
            next == Spin::after(failed, taken),
    {
        if taken {
            Spin::Taken
        } else if failed < SPIN_LIMIT {
            Spin::Again
        } else {
            Spin::GivenUp
        }
    }
}

/// An atomic flag that says whether some data is being accessed.
///
/// A thread takes the flag with [`SpinLockFlag::lock`] before it touches the
/// data and gives it back with [`SpinLockFlag::unlock`] afterwards. The flag
/// does not know the data: keeping to this discipline is the caller's part.
pub struct SpinLockFlag {
    is_locked: AtomicBool,
}

impl SpinLockFlag {
    /// Whether this flag is what `AtomicBool::new` returns for `false`: a flag
    /// that was free when it was made.
    pub closed spec fn made_free(&self) -> bool {
        call_ensures(AtomicBool::new, (false,), self.is_locked)
    }

    /// Whether `exchange` is what one attempt on this flag may return: what a
    /// weak compare-and-swap of the flag from free to held returns, with
    /// acquire ordering on success and relaxed ordering on failure. `Ok` says
    /// that the exchange found the flag free and took it.
    pub closed spec fn attempted(&self, exchange: Result<bool, bool>) -> bool {
        call_ensures(
            AtomicBool::compare_exchange_weak,
            (&self.is_locked, false, true, Ordering::Acquire, Ordering::Relaxed),
            exchange,
        )
    }

    /// A free flag.
    pub fn new() -> (flag: Self)
        ensures
            flag.made_free(),
    {
        SpinLockFlag { is_locked: AtomicBool::new(false) }
    }

    /// One attempt to take the flag: a weak compare-and-swap from free to
    /// held, acquire on success and relaxed on failure. Returns whether this
    /// call took the flag. The exchange may fail though the flag is free.
    ///
    /// What the exchange returns depends on the other threads. The contract
    /// states which exchange was made, and that the result says whether it
    /// went through.
    pub fn try_lock(&self) -> (acquired: bool)
        ensures
            exists|exchange: Result<bool, bool>|
                #[trigger] self.attempted(exchange) && acquired == exchange is Ok,
    {
        let exchange = self.is_locked.compare_exchange_weak(
            false,
            true,
            Ordering::Acquire,
            Ordering::Relaxed,
        );
        assert(self.attempted(exchange));
        exchange.is_ok()
    }

    /// Whether the release store that frees this flag was made: a store of
    /// `false` to the flag with release ordering.
    pub closed spec fn released(&self) -> bool {
        call_ensures(store, (&self.is_locked, false, Ordering::Release), ())
    }

    /// What a spin for the flag does after an exchange that returned
    /// `exchange`, when `failed` exchanges have failed before it: it has the
    /// flag if the exchange returned `Ok`, and goes on or gives up as
    /// [`Spin::after`] says if not.
    pub fn after_attempt(failed: u64, exchange: Result<bool, bool>) -> (next: Spin)
        ensures
            next == Spin::after(failed, exchange is Ok),
    {
        Spin::decide(failed, exchange.is_ok())
    }

    /// Spins for the flag: it attempts to take the flag and, after each failed
    /// attempt, hints the processor that it is busy-waiting and attempts
    /// again. Returns `true` as soon as an attempt has taken the flag. While
    /// another thread holds the flag the call keeps spinning; there is no
    /// timeout and nothing cancels it.
    ///
    /// The failed attempts are counted, which gives the loop its measure: a
    /// call whose first attempt and [`SPIN_LIMIT`] further ones have all
    /// failed returns `false`, without the flag. At one attempt per nanosecond
    /// that comes after more than five centuries.
    ///
    /// The result is that of the last attempt made. How many attempts were
    /// made the contract does not say.
    pub fn lock(&self) -> (acquired: bool)
        ensures
            exists|exchange: Result<bool, bool>|
                #[trigger] self.attempted(exchange) && acquired == exchange is Ok,
    {
        let mut failed: u64 = 0;
        loop
            invariant
                failed <= SPIN_LIMIT,
            decreases SPIN_LIMIT - failed,
        {
            let exchange = self.is_locked.compare_exchange_weak(
                false,
                true,
                Ordering::Acquire,
                Ordering::Relaxed,
            );
            assert(self.attempted(exchange));
            match Self::after_attempt(failed, exchange) {
                Spin::Taken => {
                    return true;
                },
                Spin::GivenUp => {
                    return false;
                },
                Spin::Again => {
                    std::hint::spin_loop();
                    failed = failed + 1;
                },
            }
        }
    }

    /// Gives the flag back with one release store.
    ///
    /// Only the thread that holds the flag may call this. The flag cannot
    /// check that: a call by another thread ends the holder's exclusive access
    /// without telling it.
    pub fn unlock(&self)
        ensures
            self.released(),
        opens_invariants none
        no_unwind
    {
        store(&self.is_locked, false, Ordering::Release);
    }
}

} // verus!
