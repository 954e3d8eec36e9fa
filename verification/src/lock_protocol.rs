//! The protocol of the spin lock as a transition system, and what holds of
//! every run of it.
//!
//! A state is the flag together with the set of threads that hold a guard and
//! the history of the protected value. A step is one atomic operation of one
//! thread: an attempt to take the flag, a write to the protected value through
//! a guard, or the release of the flag when a guard is dropped. A run is any
//! sequence of steps, by any number of threads, in any order.
//!
//! Threads do not see memory alike, so the state also says how much of the
//! history each thread knows. Knowledge moves between threads only through
//! the flag: the release store of an unlock publishes what the holder knows,
//! and the acquire exchange of a successful attempt learns what was published.
//!
//! The laws here are laws of the protocol. The executable lock is written to
//! run its steps, and its contracts state which atomic operations a call has
//! made, on which flag and with which ordering. They record that a call was
//! made: not in which order the calls came, not how often one was made, and
//! not that no other was made. So no proof here says that the executable
//! functions take the steps of the protocol in its order; that is read off
//! their bodies and run by the tests. Nor does the protocol know the limit of
//! the spin: an attempt that fails is followed by another without end.

use vstd::prelude::*;

verus! {

/// One atomic operation of one thread.
pub enum LockStep<T> {
    /// A compare-and-swap of the flag from free to held, acquire on success.
    /// `spurious` says that the weak exchange fails on its own account,
    /// whatever the flag holds.
    Attempt { thread: nat, spurious: bool },
    /// A write of `value` through the guard. The thread knows its own write
    /// as the newest if it knew every write before it.
    Write { thread: nat, value: T },
    /// The drop of the guard: a release store of free to the flag.
    Release { thread: nat },
}

/// The lock as the protocol sees it.
pub struct LockState<T> {
    /// What the flag holds.
    pub locked: bool,
    /// The threads that hold a guard.
    pub holders: Set<nat>,
    /// Every value that the protected value has had, oldest first: the one
    /// the lock was made with, then each write.
    pub writes: Seq<T>,
    /// How many of the writes the last store to the flag published.
    pub published: nat,
    /// How many of the writes each thread has learnt of since the lock was
    /// made.
    pub learnt: Map<nat, nat>,
}

impl<T> LockState<T> {
    /// A new lock around `value`: the flag is free, no thread holds a guard,
    /// and the value that the lock was made with is published.
    pub open spec fn new(value: T) -> Self {
        LockState {
            locked: false,
            holders: Set::empty(),
            writes: seq![value],
            published: 1,
            learnt: Map::empty(),
        }
    }

    /// How many of the writes `thread` knows of. Every thread knows the value
    /// that the lock was made with.
    pub open spec fn known_to(self, thread: nat) -> nat {
        if self.learnt.dom().contains(thread) {
            self.learnt[thread]
        } else {
            1
        }
    }

    /// Whether `thread` knows the newest write, so that what it reads of the
    /// protected value is what was written last.
    pub open spec fn up_to_date(self, thread: nat) -> bool {
        self.known_to(thread) == self.writes.len()
    }

    /// Whether an attempt in this state takes the flag.
    pub open spec fn grants(self, spurious: bool) -> bool {
        !self.locked && !spurious
    }

    /// The state after `step`. A write or a release by a thread that holds no
    /// guard is no step of the protocol, since only a guard writes and only
    /// its drop releases: it leaves the state as it is.
    pub open spec fn next(self, step: LockStep<T>) -> Self {
        match step {
            LockStep::Attempt { thread, spurious } => {
                if self.grants(spurious) {
                    let known = if self.known_to(thread) < self.published {
                        self.published
                    } else {
                        self.known_to(thread)
                    };
                    LockState {
                        locked: true,
                        holders: self.holders.insert(thread),
                        learnt: self.learnt.insert(thread, known),
                        ..self
                    }
                } else {
                    self
                }
            },
            LockStep::Write { thread, value } => {
                if self.holders.contains(thread) {
                    let known = if self.up_to_date(thread) {
                        self.writes.len() + 1
                    } else {
                        self.known_to(thread)
                    };
                    LockState {
                        writes: self.writes.push(value),
                        learnt: self.learnt.insert(thread, known),
                        ..self
                    }
                } else {
                    self
                }
            },
            LockStep::Release { thread } => {
                if self.holders.contains(thread) {
                    LockState {
                        locked: false,
                        holders: self.holders.remove(thread),
                        published: self.known_to(thread),
                        ..self
                    }
                } else {
                    self
                }
            },
        }
    }

    /// The state after all of `steps`, taken from the first to the last.
    pub open spec fn run(self, steps: Seq<LockStep<T>>) -> Self
        decreases steps.len(),
    {
        if steps.len() == 0 {
            self
        } else {
            self.run(steps.drop_last()).next(steps.last())
        }
    }

    /// The flag is held exactly while some thread holds a guard, and no two
    /// threads hold one.
    pub open spec fn exclusive(self) -> bool {
        &&& self.locked <==> exists|thread: nat| self.holders.contains(thread)
        &&& forall|a: nat, b: nat|
            self.holders.contains(a) && self.holders.contains(b) ==> a == b
    }

    /// The newest write is known where it is needed: to the thread that holds
    /// a guard, and to the flag while it is free.
    pub open spec fn handed_on(self) -> bool {
        &&& forall|thread: nat| self.holders.contains(thread) ==> self.up_to_date(thread)
        &&& !self.locked ==> self.published == self.writes.len()
        &&& forall|thread: nat| self.known_to(thread) <= self.writes.len()
    }
}

/// A step keeps the lock exclusive and the newest write handed on.
pub proof fn lemma_step_keeps_order<T>(state: LockState<T>, step: LockStep<T>)
    requires
        state.exclusive(),
        state.handed_on(),
    ensures
        state.next(step).exclusive(),
        state.next(step).handed_on(),
{
    let after = state.next(step);
    match step {
        LockStep::Attempt { thread, spurious } => {
            if state.grants(spurious) {
                assert(forall|other: nat| !state.holders.contains(other));
                assert(after.holders.contains(thread));
                assert(state.known_to(thread) <= state.writes.len());
                assert forall|other: nat| after.known_to(other) <= after.writes.len() by {
                    assert(state.known_to(other) <= state.writes.len());
                }
            }
        },
        LockStep::Write { thread, value } => {
            assert(after.holders == state.holders);
            if state.holders.contains(thread) {
                assert forall|other: nat| after.known_to(other) <= after.writes.len() by {
                    assert(state.known_to(other) <= state.writes.len());
                }
            }
        },
        LockStep::Release { thread } => {
            if state.holders.contains(thread) {
                assert(forall|other: nat| !after.holders.contains(other));
                assert(state.up_to_date(thread));
                assert forall|other: nat| after.known_to(other) <= after.writes.len() by {
                    assert(state.known_to(other) <= state.writes.len());
                }
            }
        },
    }
}

/// Every run from a new lock leaves it exclusive, with the newest write
/// handed on.
pub proof fn lemma_run_keeps_order<T>(value: T, steps: Seq<LockStep<T>>)
    ensures
        LockState::new(value).run(steps).exclusive(),
        LockState::new(value).run(steps).handed_on(),
    decreases steps.len(),
{
    if steps.len() > 0 {
        lemma_run_keeps_order(value, steps.drop_last());
        lemma_step_keeps_order(LockState::new(value).run(steps.drop_last()), steps.last());
    }
}

/// Mutual exclusion. However the attempts, writes and releases of any number
/// of threads interleave, two threads that hold a guard at the same time are
/// one and the same thread.
pub proof fn law_mutual_exclusion<T>(value: T, steps: Seq<LockStep<T>>, a: nat, b: nat)
    requires
        LockState::new(value).run(steps).holders.contains(a),
        LockState::new(value).run(steps).holders.contains(b),
    ensures
        a == b,
{
    lemma_run_keeps_order(value, steps);
}

/// A free flag goes to the thread that asks. After any run that leaves the
/// flag free, an attempt that does not fail spuriously makes its thread the
/// one holder.
pub proof fn law_free_flag_is_granted<T>(
    value: T,
    steps: Seq<LockStep<T>>,
    thread: nat,
    other: nat,
)
    requires
        !LockState::new(value).run(steps).locked,
    ensures
        LockState::new(value).run(steps).next(
            LockStep::Attempt { thread, spurious: false },
        ).holders.contains(other) <==> other == thread,
{
    lemma_run_keeps_order(value, steps);
}

/// The drop of the guard frees the flag. After any run, the release by a
/// thread that holds a guard leaves the flag free and no guard behind.
pub proof fn law_release_frees_flag<T>(
    value: T,
    steps: Seq<LockStep<T>>,
    thread: nat,
    other: nat,
)
    requires
        LockState::new(value).run(steps).holders.contains(thread),
    ensures
        !LockState::new(value).run(steps).next(LockStep::Release { thread }).locked,
        !LockState::new(value).run(steps).next(LockStep::Release { thread }).holders.contains(
            other,
        ),
{
    lemma_run_keeps_order(value, steps);
}

/// What one guard wrote, the next guard sees. However the steps interleave,
/// a thread that holds a guard knows every write that was ever made through a
/// guard, whichever thread made it: it reads the newest value.
pub proof fn law_guard_sees_every_write<T>(value: T, steps: Seq<LockStep<T>>, thread: nat)
    requires
        LockState::new(value).run(steps).holders.contains(thread),
    ensures
        LockState::new(value).run(steps).up_to_date(thread),
{
    lemma_run_keeps_order(value, steps);
}

/// A write stays until the next write. The value that a guard wrote last
/// before it was dropped is the newest value when another thread is granted
/// the flag, and that thread knows it.
pub proof fn law_write_reaches_next_guard<T>(
    value: T,
    steps: Seq<LockStep<T>>,
    writer: nat,
    written: T,
    next_holder: nat,
)
    requires
        LockState::new(value).run(steps).holders.contains(writer),
    ensures
        ({
            let handed_over = LockState::new(value).run(steps).next(
                LockStep::Write { thread: writer, value: written },
            ).next(LockStep::Release { thread: writer }).next(
                LockStep::Attempt { thread: next_holder, spurious: false },
            );
            &&& handed_over.holders.contains(next_holder)
            &&& handed_over.up_to_date(next_holder)
            &&& handed_over.writes.last() == written
        }),
{
    lemma_run_keeps_order(value, steps);
    let state = LockState::new(value).run(steps);
    let wrote = state.next(LockStep::Write { thread: writer, value: written });
    lemma_step_keeps_order(state, LockStep::Write { thread: writer, value: written });
    let released = wrote.next(LockStep::Release { thread: writer });
    lemma_step_keeps_order(wrote, LockStep::Release { thread: writer });
    assert(wrote.holders.contains(writer));
    assert(!released.locked);
    lemma_step_keeps_order(released, LockStep::Attempt { thread: next_holder, spurious: false });
}

} // verus!
