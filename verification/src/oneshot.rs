//! A channel for exactly one message, shared by reference between the thread
//! that sends and the thread that receives.

use crate::flag::store;
use crate::storage::entered;
use crate::storage::put;
use crate::storage::reached;
use crate::storage::take;
use std::sync::atomic::AtomicBool;
use std::sync::atomic::Ordering;
use std::sync::Mutex;
use std::sync::MutexGuard;
use vstd::prelude::*;

verus! {

/// The failure of a send on a channel that does not take the message: it has
/// taken one already, or its storage cell was found busy, which only a caller
/// of the unchecked functions can bring about. It hands the refused message
/// back.
#[derive(Debug, PartialEq, Eq)]
pub struct SendError<T> {
    pub message: T,
}

/// The failure of a receive on a channel that has no message to hand out:
/// none was sent yet, or the one that was sent has been taken, or the storage
/// cell was found busy, which only a caller of the unchecked functions can
/// bring about.
#[derive(Debug, PartialEq, Eq, Clone, Copy)]
pub struct NotReady;

/// A slot for one message and two flags: one that the first sender raises to
/// claim the slot, and one that says that the message is in the slot.
///
/// The channel goes from empty, to in use, to ready, to consumed, and never
/// back. One send and, after it, one receive succeed; every other send or
/// receive is reported as a failure and changes nothing.
///
/// The slot is a tagged container, so a message that was sent and never
/// received is dropped with the channel, and a channel that never took a
/// message drops none.
#[verifier::reject_recursive_types(T)]
pub struct OneshotChannel<T> {
    message: Mutex<Option<T>>,
    is_message_in_use: AtomicBool,
    is_message_ready: AtomicBool,
}

impl<T> OneshotChannel<T> {
    /// Whether this channel is made of what `Mutex::new` returns for an empty
    /// slot and of what `AtomicBool::new` returns for `false`, twice: a
    /// channel that was empty, with both flags down, when it was made.
    pub closed spec fn made_empty(&self) -> bool {
        &&& call_ensures(Mutex::<Option<T>>::new, (None::<T>,), self.message)
        &&& call_ensures(AtomicBool::new, (false,), self.is_message_in_use)
        &&& call_ensures(AtomicBool::new, (false,), self.is_message_ready)
    }

    /// Whether `ready` is what a poll of this channel may return: what a load
    /// of the ready flag returns, with relaxed ordering.
    pub closed spec fn polled(&self, ready: bool) -> bool {
        call_ensures(AtomicBool::load, (&self.is_message_ready, Ordering::Relaxed), ready)
    }

    /// Whether `was_in_use` is what the claim of a send on this channel may
    /// return: what a swap of the in-use flag to up returns, with relaxed
    /// ordering.
    pub closed spec fn claimed(&self, was_in_use: bool) -> bool {
        call_ensures(
            AtomicBool::swap,
            (&self.is_message_in_use, true, Ordering::Relaxed),
            was_in_use,
        )
    }

    /// Whether `was_ready` is what the first step of a receive on this channel
    /// may return: what a swap of the ready flag to down returns, with acquire
    /// ordering.
    pub closed spec fn lowered(&self, was_ready: bool) -> bool {
        call_ensures(
            AtomicBool::swap,
            (&self.is_message_ready, false, Ordering::Acquire),
            was_ready,
        )
    }

    /// Whether `slot` is the way to the slot of this channel that goes through
    /// `access`, an access that entering the storage cell may give.
    pub closed spec fn opened(
        &self,
        access: &mut MutexGuard<'_, Option<T>>,
        slot: &mut Option<T>,
    ) -> bool {
        reached(&self.message, access, slot)
    }

    /// Whether the release store that raises the ready flag of this channel
    /// was made: a store of `true` to the flag with release ordering.
    pub closed spec fn raised(&self) -> bool {
        call_ensures(store, (&self.is_message_ready, true, Ordering::Release), ())
    }

    /// Whether an attempt to enter the storage cell of this channel was made
    /// and found the cell busy.
    pub closed spec fn shut(&self) -> bool {
        entered(&self.message, None)
    }

    /// Every way to the slot that goes through the storage cell of this
    /// channel is a way that [`OneshotChannel::opened`] knows.
    proof fn lemma_reached_is_opened(&self)
        ensures
            forall|access: &mut MutexGuard<'_, Option<T>>, slot: &mut Option<T>| #[trigger]
                reached(&self.message, access, slot) ==> self.opened(access, slot),
    {
    }

    /// An empty channel.
    pub fn new() -> (channel: Self)
        ensures
            channel.made_empty(),
    {
        OneshotChannel {
            message: Mutex::new(None),
            is_message_in_use: AtomicBool::new(false),
            is_message_ready: AtomicBool::new(false),
        }
    }

    /// Whether a message is waiting, by a relaxed load of the ready flag. The
    /// answer is advice for a receiver that polls: it orders nothing, and the
    /// flag may change at once.
    pub fn is_message_ready(&self) -> (ready: bool)
        ensures
            self.polled(ready),
    {
        self.is_message_ready.load(Ordering::Relaxed)
    }

    /// What [`OneshotChannel::send`] returns for `message` when it found the
    /// in-use flag at `was_in_use` and, behind a flag that was down, the
    /// storage cell busy or not, as `was_busy` says. Only a send that found
    /// the flag down and the cell free is accepted; every other one hands the
    /// message back.
    pub open spec fn send_outcome(was_in_use: bool, was_busy: bool, message: T) -> Result<
        (),
        SendError<T>,
    > {
        if was_in_use || was_busy {
            Err(SendError { message })
        } else {
            Ok(())
        }
    }

    /// Sends `message`, if this is the first send on the channel.
    ///
    /// The call raises the in-use flag with a relaxed swap. If the flag was
    /// already up, another send came first: the slot is left alone and the
    /// message comes back in the error. Otherwise the message goes into the
    /// slot, and a release store raises the ready flag.
    ///
    /// A send that has claimed the slot finds the storage cell free. Only a
    /// caller that uses the unchecked functions beside it can make it find
    /// the cell busy; the message then comes back in the error as well, and
    /// the ready flag stays down.
    ///
    /// Which of these happens depends on what the other threads did. The
    /// contract states which swap was made, that the outcome is the one for
    /// what the swap returned and for how the cell was found, and that an
    /// accepted send leaves the slot holding the message and makes the store
    /// that raises the ready flag.
    pub fn send(&self, message: T) -> (outcome: Result<(), SendError<T>>)
        ensures
            exists|was_in_use: bool|
                {
                    &&& #[trigger] self.claimed(was_in_use)
                    &&& self.sent(was_in_use, message, outcome)
                },
    {
        let was_in_use = self.is_message_in_use.swap(true, Ordering::Relaxed);
        assert(self.claimed(was_in_use));
        self.finish_send(was_in_use, message)
    }

    /// Whether `outcome` is what a send of `message` comes to behind an in-use
    /// flag found at `was_in_use`: behind a flag that was up the message comes
    /// back; behind one that was down it comes back from a cell that was
    /// found busy and from no other, and an accepted send has made the store
    /// that raises the ready flag.
    pub open spec fn sent(
        &self,
        was_in_use: bool,
        message: T,
        outcome: Result<(), SendError<T>>,
    ) -> bool {
        exists|was_busy: bool|
            {
                &&& outcome == #[trigger] Self::send_outcome(was_in_use, was_busy, message)
                &&& !was_in_use && was_busy ==> self.shut()
                &&& !was_in_use && !was_busy ==> self.raised()
            }
    }

    /// The part of a send that follows the swap of the in-use flag, for a swap
    /// that found the flag at `was_in_use`: with the flag up it hands
    /// `message` back in the error, with the flag down it puts `message` into
    /// the slot and raises the ready flag, or hands `message` back from a
    /// storage cell that it found busy.
    pub fn finish_send(&self, was_in_use: bool, message: T) -> (outcome: Result<
        (),
        SendError<T>,
    >)
        ensures
            self.sent(was_in_use, message, outcome),
            was_in_use ==> outcome == Self::send_outcome(true, false, message),
            outcome is Ok ==> exists|access: &mut MutexGuard<'_, Option<T>>, slot: &mut Option<T>|
                #[trigger] self.opened(access, slot) && *final(slot) == Some(message),
    {
        if was_in_use {
            assert(Err::<(), SendError<T>>(SendError { message }) == Self::send_outcome(
                true,
                false,
                message,
            ));
            Err(SendError { message })
        } else {
            self.send_unchecked(message)
        }
    }

    /// What [`OneshotChannel::receive`] returns when it found the ready flag
    /// at `was_ready` and, behind a flag that was up, `stored` in the slot.
    pub open spec fn receive_outcome(was_ready: bool, stored: Option<T>) -> Result<T, NotReady> {
        match stored {
            Some(message) if was_ready => Ok(message),
            _ => Err(NotReady),
        }
    }

    /// Whether `message` is what looking into the slot of this channel comes
    /// to: what the slot held, with the slot left empty, or nothing, from a
    /// storage cell that was found busy.
    ///
    /// The first half is stated where it is used, since it speaks of the slot
    /// after the look; this is the second.
    pub open spec fn missed(&self, message: Option<T>) -> bool {
        message is None && self.shut()
    }

    /// Receives the message, if one is ready.
    ///
    /// The call lowers the ready flag with an acquire swap, which pairs with
    /// the release store of the send, so that the message is seen as it was
    /// written. If the flag was already down, no message is there to take and
    /// the call fails. Otherwise the message is moved out of the slot.
    ///
    /// A receive that found the flag up finds the storage cell free. Only a
    /// caller that uses the unchecked functions beside it can make it find
    /// the cell busy; the call then fails as well.
    ///
    /// What the flag and the slot hold depends on what the other threads did.
    /// The contract states which swap was made, that the call fails behind a
    /// flag that was down, and that behind a flag that was up the outcome is
    /// the one for what the slot held, with the slot left empty, or the
    /// failure for a cell that was found busy.
    pub fn receive(&self) -> (outcome: Result<T, NotReady>)
        ensures
            exists|was_ready: bool|
                {
                    &&& #[trigger] self.lowered(was_ready)
                    &&& !was_ready ==> outcome == Err::<T, NotReady>(NotReady)
                    &&& was_ready ==> {
                        ||| outcome == Err::<T, NotReady>(NotReady) && self.shut()
                        ||| exists|
                            access: &mut MutexGuard<'_, Option<T>>,
                            slot: &mut Option<T>,
                        |
                            {
                                &&& #[trigger] self.opened(access, slot)
                                &&& outcome == Self::receive_outcome(true, *slot)
                                &&& *final(slot) is None
                            }
                    }
                },
    {
        let was_ready = self.is_message_ready.swap(false, Ordering::Acquire);
        assert(self.lowered(was_ready));
        self.finish_receive(was_ready)
    }

    /// The part of a receive that follows the swap of the ready flag, for a
    /// swap that found the flag at `was_ready`: with the flag down it fails,
    /// with the flag up it moves out what the slot holds, hands that out, and
    /// fails if the slot was empty or the storage cell busy.
    pub fn finish_receive(&self, was_ready: bool) -> (outcome: Result<T, NotReady>)
        ensures
            !was_ready ==> outcome == Err::<T, NotReady>(NotReady),
            was_ready ==> {
                ||| outcome == Err::<T, NotReady>(NotReady) && self.shut()
                ||| exists|access: &mut MutexGuard<'_, Option<T>>, slot: &mut Option<T>|
                    {
                        &&& #[trigger] self.opened(access, slot)
                        &&& outcome == Self::receive_outcome(true, *slot)
                        &&& *final(slot) is None
                    }
            },
    {
        if was_ready {
            let stored = self.receive_unchecked();
            assert(stored.ok_or(NotReady) == Self::receive_outcome(true, stored));
            stored.ok_or(NotReady)
        } else {
            Err(NotReady)
        }
    }

    /// Puts `message` into the slot and raises the ready flag with a release
    /// store, without claiming the slot first.
    ///
    /// This is the send for a caller that knows it is the only sender and
    /// sends once. A second call replaces a message that was not received
    /// yet; the replaced message is dropped after the storage cell has been
    /// left. From a storage cell that it finds busy the call hands `message`
    /// back and leaves the flag alone.
    pub fn send_unchecked(&self, message: T) -> (outcome: Result<(), SendError<T>>)
        ensures
            self.sent(false, message, outcome),
            outcome is Ok ==> exists|access: &mut MutexGuard<'_, Option<T>>, slot: &mut Option<T>|
                #[trigger] self.opened(access, slot) && *final(slot) == Some(message),
    {
        proof {
            self.lemma_reached_is_opened();
        }
        match put(&self.message, message) {
            Ok(_replaced) => {
                store(&self.is_message_ready, true, Ordering::Release);
                assert(Ok::<(), SendError<T>>(()) == Self::send_outcome(false, false, message));
                Ok(())
            },
            Err(message) => {
                assert(Err::<(), SendError<T>>(SendError { message }) == Self::send_outcome(
                    false,
                    true,
                    message,
                ));
                Err(SendError { message })
            },
        }
    }

    /// Moves the message out of the slot without looking at the ready flag,
    /// and leaves the flag as it is.
    ///
    /// This is the receive for a caller that has seen
    /// [`OneshotChannel::is_message_ready`] return `true` and receives once.
    /// Where the slot is empty, or the storage cell busy, the result is
    /// `None`.
    pub fn receive_unchecked(&self) -> (message: Option<T>)
        ensures
            self.missed(message) || exists|
                access: &mut MutexGuard<'_, Option<T>>,
                slot: &mut Option<T>,
            |
                #[trigger] self.opened(access, slot) && *slot == message && *final(slot) is None,
    {
        proof {
            self.lemma_reached_is_opened();
        }
        match take(&self.message) {
            Some(message) => message,
            None => None,
        }
    }
}

} // verus!
