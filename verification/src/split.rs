//! The one-message channel as a pair of handles: a sender and a receiver that
//! share one record and are each used up by their one call.

use crate::flag::store;
use crate::oneshot::NotReady;
use crate::oneshot::OneshotChannel;
use crate::oneshot::SendError;
use crate::storage::entered;
use crate::storage::put;
use crate::storage::reached;
use crate::storage::take;
use std::sync::atomic::AtomicBool;
use std::sync::atomic::Ordering;
use std::sync::Arc;
use std::sync::Mutex;
use std::sync::MutexGuard;
use vstd::prelude::*;

verus! {

/// `Arc::clone`: a second handle to the same allocation. In specifications a
/// handle stands for what it points to, so the two are equal.
#[verifier::external_body]
fn share<T>(record: &Arc<T>) -> (other: Arc<T>)
    ensures
        other == *record,
{
    Arc::clone(record)
}

/// The record that a sender and a receiver share: the slot and the flag that
/// says that the message is in it. It goes when both handles are gone, and a
/// message that is still in the slot goes with it.
#[verifier::reject_recursive_types(T)]
struct Channel<T> {
    message: Mutex<Option<T>>,
    is_message_ready: AtomicBool,
}

/// The sending half of a channel. It is not `Clone`, and [`Sender::send`]
/// takes it by value: a second send does not compile.
#[verifier::reject_recursive_types(T)]
pub struct Sender<T> {
    channel: Arc<Channel<T>>,
}

/// The receiving half of a channel. It is not `Clone`, and
/// [`Receiver::receive`] takes it by value: a second receive does not compile.
#[verifier::reject_recursive_types(T)]
pub struct Receiver<T> {
    channel: Arc<Channel<T>>,
}

/// A new channel, as the two handles that share its record.
pub fn channel<T>() -> (handles: (Sender<T>, Receiver<T>))
    ensures
        handles.0.paired_with(&handles.1),
        handles.1.made_empty(),
{
    let channel = Arc::new(
        Channel { message: Mutex::new(None), is_message_ready: AtomicBool::new(false) },
    );
    let sender = Sender { channel: share(&channel) };
    let receiver = Receiver { channel };
    (sender, receiver)
}

impl<T> Sender<T> {
    /// Whether this handle and `receiver` share one record, so that what this
    /// one sends is what that one receives.
    pub closed spec fn paired_with(&self, receiver: &Receiver<T>) -> bool {
        self.channel == receiver.channel
    }

    /// Whether `slot` is the way to the slot of the record that goes through
    /// `access`, an access that entering the storage cell may give.
    pub closed spec fn opened(
        &self,
        access: &mut MutexGuard<'_, Option<T>>,
        slot: &mut Option<T>,
    ) -> bool {
        reached(&self.channel.message, access, slot)
    }

    /// Every way to the slot that goes through the storage cell of the record
    /// is a way that `opened` knows.
    proof fn lemma_reached_is_opened(&self)
        ensures
            forall|access: &mut MutexGuard<'_, Option<T>>, slot: &mut Option<T>| #[trigger]
                reached(&self.channel.message, access, slot) ==> self.opened(access, slot),
    {
    }

    /// Whether the release store that raises the ready flag of the record was
    /// made: a store of `true` to the flag with release ordering.
    pub closed spec fn raised(&self) -> bool {
        call_ensures(store, (&self.channel.is_message_ready, true, Ordering::Release), ())
    }

    /// Whether an attempt to enter the storage cell of the record was made
    /// and found the cell busy.
    pub closed spec fn shut(&self) -> bool {
        entered(&self.channel.message, None)
    }

    /// Puts `message` into the slot and raises the ready flag with a release
    /// store. No flag guards the slot against a second write: the handle is
    /// gone after this call.
    ///
    /// The one send finds the storage cell free. Only a receiver that looks
    /// into the slot without having found the flag up can make it find the
    /// cell busy; the message then comes back in the error, and the ready
    /// flag stays down. An accepted send leaves the slot holding `message`
    /// and makes the store.
    pub fn send(self, message: T) -> (outcome: Result<(), SendError<T>>)
        ensures
            exists|was_busy: bool|
                {
                    &&& outcome == #[trigger] OneshotChannel::<T>::send_outcome(
                        false,
                        was_busy,
                        message,
                    )
                    &&& was_busy ==> self.shut()
                    &&& !was_busy ==> self.raised()
                },
            outcome is Ok ==> exists|access: &mut MutexGuard<'_, Option<T>>, slot: &mut Option<T>|
                #[trigger] self.opened(access, slot) && *final(slot) == Some(message),
    {
        proof {
            self.lemma_reached_is_opened();
        }
        match put(&self.channel.message, message) {
            Ok(_replaced) => {
                store(&self.channel.is_message_ready, true, Ordering::Release);
                assert(Ok::<(), SendError<T>>(()) == OneshotChannel::<T>::send_outcome(
                    false,
                    false,
                    message,
                ));
                Ok(())
            },
            Err(message) => {
                assert(Err::<(), SendError<T>>(SendError { message })
                    == OneshotChannel::<T>::send_outcome(false, true, message));
                Err(SendError { message })
            },
        }
    }
}

impl<T> Receiver<T> {
    /// Whether the record behind this handle is made of what `Mutex::new`
    /// returns for an empty slot and of what `AtomicBool::new` returns for
    /// `false`: a record that was empty, with the flag down, when it was made.
    pub closed spec fn made_empty(&self) -> bool {
        &&& call_ensures(Mutex::<Option<T>>::new, (None::<T>,), self.channel.message)
        &&& call_ensures(AtomicBool::new, (false,), self.channel.is_message_ready)
    }

    /// Whether `ready` is what a poll through this handle may return: what a
    /// load of the ready flag of the record returns, with relaxed ordering.
    pub closed spec fn polled(&self, ready: bool) -> bool {
        call_ensures(AtomicBool::load, (&self.channel.is_message_ready, Ordering::Relaxed), ready)
    }

    /// Whether `was_ready` is what the first step of a receive through this
    /// handle may return: what a swap of the ready flag of the record to down
    /// returns, with acquire ordering.
    pub closed spec fn lowered(&self, was_ready: bool) -> bool {
        call_ensures(
            AtomicBool::swap,
            (&self.channel.is_message_ready, false, Ordering::Acquire),
            was_ready,
        )
    }

    /// Whether `slot` is the way to the slot of the record that goes through
    /// `access`, an access that entering the storage cell may give.
    pub closed spec fn opened(
        &self,
        access: &mut MutexGuard<'_, Option<T>>,
        slot: &mut Option<T>,
    ) -> bool {
        reached(&self.channel.message, access, slot)
    }

    /// Every way to the slot that goes through the storage cell of the record
    /// is a way that `opened` knows.
    proof fn lemma_reached_is_opened(&self)
        ensures
            forall|access: &mut MutexGuard<'_, Option<T>>, slot: &mut Option<T>| #[trigger]
                reached(&self.channel.message, access, slot) ==> self.opened(access, slot),
    {
    }

    /// Whether the message is waiting, by a relaxed load of the ready flag.
    pub fn is_message_ready(&self) -> (ready: bool)
        ensures
            self.polled(ready),
    {
        self.channel.is_message_ready.load(Ordering::Relaxed)
    }

    /// Whether an attempt to enter the storage cell of the record was made
    /// and found the cell busy.
    pub closed spec fn shut(&self) -> bool {
        entered(&self.channel.message, None)
    }

    /// Receives the message, if it is ready.
    ///
    /// The call lowers the ready flag with an acquire swap. If the flag was
    /// already down, the message was not sent yet and the call fails: poll
    /// [`Receiver::is_message_ready`] first. Otherwise the message is moved
    /// out of the slot. Either way the handle is used up.
    ///
    /// What the flag and the slot hold depends on what the sender did. The
    /// contract states which swap was made, that the call fails behind a flag
    /// that was down, and that behind a flag that was up the outcome is the
    /// one for what the slot held, with the slot left empty, or the failure
    /// for a storage cell that was found busy.
    pub fn receive(self) -> (outcome: Result<T, NotReady>)
        ensures
            exists|was_ready: bool|
                {
                    &&& #[trigger] self.lowered(was_ready)
                    &&& !was_ready ==> outcome == Err::<T, NotReady>(NotReady)
                    &&& was_ready ==> {
                        ||| outcome == Err::<T, NotReady>(NotReady) && self.shut()
                        ||| exists|
                            access: &mut MutexGuard<'_, Option<T>>,
                            slot: &mut Option<T>,
                        |
                            {
                                &&& #[trigger] self.opened(access, slot)
                                &&& outcome == OneshotChannel::<T>::receive_outcome(true, *slot)
                                &&& *final(slot) is None
                            }
                    }
                },
    {
        let was_ready = self.channel.is_message_ready.swap(false, Ordering::Acquire);
        assert(self.lowered(was_ready));
        self.finish_receive(was_ready)
    }

    /// The part of a receive that follows the swap of the ready flag, for a
    /// swap that found the flag at `was_ready`: with the flag down it fails,
    /// with the flag up it moves out what the slot holds, hands that out, and
    /// fails if the slot was empty or the storage cell busy.
    pub fn finish_receive(self, was_ready: bool) -> (outcome: Result<T, NotReady>)
        ensures
            !was_ready ==> outcome == Err::<T, NotReady>(NotReady),
            was_ready ==> {
                ||| outcome == Err::<T, NotReady>(NotReady) && self.shut()
                ||| exists|access: &mut MutexGuard<'_, Option<T>>, slot: &mut Option<T>|
                    {
                        &&& #[trigger] self.opened(access, slot)
                        &&& outcome == OneshotChannel::<T>::receive_outcome(true, *slot)
                        &&& *final(slot) is None
                    }
            },
    {
        if was_ready {
            proof {
                self.lemma_reached_is_opened();
            }
            match take(&self.channel.message) {
                Some(stored) => {
                    assert(stored.ok_or(NotReady) == OneshotChannel::<T>::receive_outcome(
                        true,
                        stored,
                    ));
                    stored.ok_or(NotReady)
                },
                None => Err(NotReady),
            }
        } else {
            Err(NotReady)
        }
    }
}

} // verus!
