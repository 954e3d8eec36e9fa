//! The protocol of the one-message channel as a transition system, and what
//! holds of every run of it.
//!
//! A send is three atomic operations: the swap that claims the slot, the write
//! of the message, and the store that raises the ready flag. A receive is two:
//! the swap that lowers the ready flag, and the move out of the slot. Other
//! threads may run between any two of them. A state holds the two flags, the
//! slot and, for every call that has begun, how far it has come; a run is any
//! sequence of steps of any number of calls, in any order.
//!
//! Threads do not see memory alike, so the state also counts the writes to
//! the slot and says how many of them a call knows. Knowledge passes from the
//! send to the receive only through the ready flag: the release store that
//! raises it publishes what the send knows, and the acquire swap that lowers
//! it learns what was published. A receive that does not know every write to
//! the slot cannot rely on what it finds there.
//!
//! The pair of handles follows the same protocol with one claim built in: the
//! sender is made once and cannot be copied, so its one send always wins.
//!
//! The laws here are laws of the protocol. The executable channel is written
//! to run its steps, and its contracts state which atomic operations a call
//! has made, on which flag and with which ordering, and what it found in the
//! slot and left there. They record that a call was made: not in which order
//! the calls came, not how often one was made, and not that no other was
//! made. So no proof here says that the executable functions take the steps
//! of the protocol in its order, that a refused send has left the slot alone
//! or that the ready flag is raised after the write; that is read off their
//! bodies and run by the tests. In the protocol a step is alone with the
//! slot, so the storage cell is never found busy.

use crate::oneshot::NotReady;
use crate::oneshot::OneshotChannel;
use crate::oneshot::SendError;
use vstd::prelude::*;

verus! {

/// One atomic operation of one call. Calls are numbered; the sends and the
/// receives are numbered apart.
pub enum ChannelStep<T> {
    /// A send begins: it swaps the in-use flag to up.
    Claim { call: nat, message: T },
    /// The send that claimed the slot writes its message into it.
    Write { call: nat },
    /// The send that wrote the message raises the ready flag and returns.
    Publish { call: nat },
    /// A receive begins: it swaps the ready flag to down.
    Grant { call: nat },
    /// The receive that found the ready flag up moves the message out of the
    /// slot and returns.
    Take { call: nat },
}

/// How far a send has come.
pub enum SendCall<T> {
    /// It found the in-use flag down and still has the message. The relaxed
    /// swap has told it of no write to the slot.
    Claimed { message: T },
    /// It has put the message into the slot, and knows of `known` writes to
    /// the slot: of its own, if that was the first, and of none that it can
    /// rely on, if it wrote over another.
    Written { message: T, known: nat },
    /// It has raised the ready flag and returned `Ok`.
    Sent { message: T },
    /// It found the in-use flag up and returned the message in `Err`.
    Rejected { message: T },
}

/// How far a receive has come.
pub enum ReceiveCall<T> {
    /// It found the ready flag up and may take the message; it knows of
    /// `known` writes to the slot.
    Granted { known: nat },
    /// It has returned the message in `Ok`.
    Received { message: T },
    /// It has returned `Err`.
    Failed,
}

/// The life of a channel: empty, in use while the one send that claimed it is
/// under way, ready, and consumed.
pub enum Phase<T> {
    /// No send has begun.
    Empty,
    /// In use: send `sender` has claimed the slot.
    Claimed { sender: nat, message: T },
    /// In use: send `sender` has written its message.
    Written { sender: nat, message: T },
    /// Ready: the message waits in the slot.
    Ready { sender: nat, message: T },
    /// Receive `receiver` has lowered the ready flag and not yet taken the
    /// message.
    Granted { sender: nat, message: T, receiver: nat },
    /// Consumed: receive `receiver` has the message.
    Consumed { sender: nat, message: T, receiver: nat },
}

impl<T> SendCall<T> {
    /// What the call has returned, if it has returned.
    pub open spec fn returned(self) -> Option<Result<(), SendError<T>>> {
        match self {
            SendCall::Sent { message } => Some(Ok(())),
            SendCall::Rejected { message } => Some(Err(SendError { message })),
            _ => None,
        }
    }
}

impl<T> ReceiveCall<T> {
    /// What the call has returned, if it has returned.
    pub open spec fn returned(self) -> Option<Result<T, NotReady>> {
        match self {
            ReceiveCall::Received { message } => Some(Ok(message)),
            ReceiveCall::Failed => Some(Err(NotReady)),
            ReceiveCall::Granted { .. } => None,
        }
    }
}

impl<T> Phase<T> {
    /// The send that claimed the slot, if one did.
    pub open spec fn sender(self) -> Option<nat> {
        match self {
            Phase::Empty => None,
            Phase::Claimed { sender, .. } => Some(sender),
            Phase::Written { sender, .. } => Some(sender),
            Phase::Ready { sender, .. } => Some(sender),
            Phase::Granted { sender, .. } => Some(sender),
            Phase::Consumed { sender, .. } => Some(sender),
        }
    }

    /// How far along the life of a channel the phase lies.
    pub open spec fn rank(self) -> nat {
        match self {
            Phase::Empty => 0,
            Phase::Claimed { .. } => 1,
            Phase::Written { .. } => 2,
            Phase::Ready { .. } => 3,
            Phase::Granted { .. } => 4,
            Phase::Consumed { .. } => 5,
        }
    }

    /// The receive that found the ready flag up, if one did.
    pub open spec fn receiver(self) -> Option<nat> {
        match self {
            Phase::Granted { receiver, .. } => Some(receiver),
            Phase::Consumed { receiver, .. } => Some(receiver),
            _ => None,
        }
    }
}

/// The channel as the protocol sees it.
pub struct ChannelState<T> {
    /// The flag that the first send raises.
    pub in_use: bool,
    /// The flag that says that the message is in the slot.
    pub ready: bool,
    /// The slot.
    pub slot: Option<T>,
    /// How often the slot has been written: by the send that put the message
    /// in, and by the receive that moved it out.
    pub writes: nat,
    /// How many of the writes to the slot the last store to the ready flag
    /// published.
    pub published: nat,
    /// The sends that have begun.
    pub senders: Map<nat, SendCall<T>>,
    /// The receives that have begun.
    pub receivers: Map<nat, ReceiveCall<T>>,
}

impl<T> ChannelState<T> {
    /// A new channel: both flags down, the slot empty, no call begun.
    pub open spec fn new() -> Self {
        ChannelState {
            in_use: false,
            ready: false,
            slot: None,
            writes: 0,
            published: 0,
            senders: Map::empty(),
            receivers: Map::empty(),
        }
    }

    /// The state after `step`. A step of a call that is not at that step (a
    /// write by a send that did not claim the slot, a second beginning of a
    /// call) is no step of the protocol: it leaves the state as it is.
    pub open spec fn next(self, step: ChannelStep<T>) -> Self {
        match step {
            ChannelStep::Claim { call, message } => {
                if self.senders.dom().contains(call) {
                    self
                } else {
                    let begun = match OneshotChannel::<T>::send_outcome(self.in_use, false, message) {
                        Ok(_) => SendCall::Claimed { message },
                        Err(refused) => SendCall::Rejected { message: refused.message },
                    };
                    ChannelState { in_use: true, senders: self.senders.insert(call, begun), ..self }
                }
            },
            ChannelStep::Write { call } => {
                if self.senders.dom().contains(call) && self.senders[call] is Claimed {
                    let message = self.senders[call]->Claimed_message;
                    let known: nat = if self.writes == 0 {
                        1
                    } else {
                        0
                    };
                    ChannelState {
                        slot: Some(message),
                        writes: self.writes + 1,
                        senders: self.senders.insert(call, SendCall::Written { message, known }),
                        ..self
                    }
                } else {
                    self
                }
            },
            ChannelStep::Publish { call } => {
                if self.senders.dom().contains(call) && self.senders[call] is Written {
                    let message = self.senders[call]->Written_message;
                    ChannelState {
                        ready: true,
                        published: self.senders[call]->Written_known,
                        senders: self.senders.insert(call, SendCall::Sent { message }),
                        ..self
                    }
                } else {
                    self
                }
            },
            ChannelStep::Grant { call } => {
                if self.receivers.dom().contains(call) {
                    self
                } else {
                    let begun = if self.ready {
                        ReceiveCall::Granted { known: self.published }
                    } else {
                        ReceiveCall::Failed
                    };
                    ChannelState {
                        ready: false,
                        receivers: self.receivers.insert(call, begun),
                        ..self
                    }
                }
            },
            ChannelStep::Take { call } => {
                if self.receivers.dom().contains(call) && self.receivers[call] is Granted {
                    let found = if self.receivers[call]->Granted_known == self.writes {
                        self.slot
                    } else {
                        None
                    };
                    let ended = match OneshotChannel::<T>::receive_outcome(true, found) {
                        Ok(message) => ReceiveCall::Received { message },
                        Err(_) => ReceiveCall::Failed,
                    };
                    ChannelState {
                        slot: None,
                        writes: self.writes + 1,
                        receivers: self.receivers.insert(call, ended),
                        ..self
                    }
                } else {
                    self
                }
            },
        }
    }

    /// The state after all of `steps`, taken from the first to the last.
    pub open spec fn run(self, steps: Seq<ChannelStep<T>>) -> Self
        decreases steps.len(),
    {
        if steps.len() == 0 {
            self
        } else {
            self.run(steps.drop_last()).next(steps.last())
        }
    }

    /// The three steps of send number `call`, with nothing in between.
    pub open spec fn send(self, call: nat, message: T) -> Self {
        self.next(ChannelStep::Claim { call, message }).next(ChannelStep::Write { call }).next(
            ChannelStep::Publish { call },
        )
    }

    /// The two steps of receive number `call`, with nothing in between.
    pub open spec fn receive(self, call: nat) -> Self {
        self.next(ChannelStep::Grant { call }).next(ChannelStep::Take { call })
    }

    /// Whether the state is what a channel in `phase` looks like: the flags
    /// and the slot are as the phase says, the send and the receive that the
    /// phase names stand where it says, and every other call has failed.
    pub open spec fn in_phase(self, phase: Phase<T>) -> bool {
        &&& forall|call: nat|
            self.senders.dom().contains(call) && phase.sender() != Some(call)
                ==> self.senders[call] is Rejected
        &&& forall|call: nat|
            self.receivers.dom().contains(call) && phase.receiver() != Some(call)
                ==> self.receivers[call] is Failed
        &&& match phase {
            Phase::Empty => {
                &&& !self.in_use
                &&& !self.ready
                &&& self.slot is None
                &&& self.writes == 0
                &&& forall|call: nat| !self.senders.dom().contains(call)
            },
            Phase::Claimed { sender, message } => {
                &&& self.in_use
                &&& !self.ready
                &&& self.slot is None
                &&& self.writes == 0
                &&& self.senders.dom().contains(sender)
                &&& self.senders[sender] == SendCall::Claimed { message }
            },
            Phase::Written { sender, message } => {
                &&& self.in_use
                &&& !self.ready
                &&& self.slot == Some(message)
                &&& self.writes == 1
                &&& self.senders.dom().contains(sender)
                &&& self.senders[sender] == SendCall::Written { message, known: self.writes }
            },
            Phase::Ready { sender, message } => {
                &&& self.in_use
                &&& self.ready
                &&& self.slot == Some(message)
                &&& self.writes == 1
                &&& self.published == self.writes
                &&& self.senders.dom().contains(sender)
                &&& self.senders[sender] == SendCall::Sent { message }
            },
            Phase::Granted { sender, message, receiver } => {
                &&& self.in_use
                &&& !self.ready
                &&& self.slot == Some(message)
                &&& self.writes == 1
                &&& self.senders.dom().contains(sender)
                &&& self.senders[sender] == SendCall::Sent { message }
                &&& self.receivers.dom().contains(receiver)
                &&& self.receivers[receiver] == ReceiveCall::<T>::Granted { known: self.writes }
            },
            Phase::Consumed { sender, message, receiver } => {
                &&& self.in_use
                &&& !self.ready
                &&& self.slot is None
                &&& self.writes == 2
                &&& self.senders.dom().contains(sender)
                &&& self.senders[sender] == SendCall::Sent { message }
                &&& self.receivers.dom().contains(receiver)
                &&& self.receivers[receiver] == ReceiveCall::Received { message }
            },
        }
    }

    /// The phase that `step` leads to from `phase`. Only the step that the
    /// phase waits for moves the channel on.
    pub open spec fn advance(self, phase: Phase<T>, step: ChannelStep<T>) -> Phase<T> {
        match (phase, step) {
            (Phase::Empty, ChannelStep::Claim { call, message }) => {
                if self.senders.dom().contains(call) {
                    phase
                } else {
                    Phase::Claimed { sender: call, message }
                }
            },
            (Phase::Claimed { sender, message }, ChannelStep::Write { call }) => {
                if call == sender {
                    Phase::Written { sender, message }
                } else {
                    phase
                }
            },
            (Phase::Written { sender, message }, ChannelStep::Publish { call }) => {
                if call == sender {
                    Phase::Ready { sender, message }
                } else {
                    phase
                }
            },
            (Phase::Ready { sender, message }, ChannelStep::Grant { call }) => {
                if self.receivers.dom().contains(call) {
                    phase
                } else {
                    Phase::Granted { sender, message, receiver: call }
                }
            },
            (Phase::Granted { sender, message, receiver }, ChannelStep::Take { call }) => {
                if call == receiver {
                    Phase::Consumed { sender, message, receiver }
                } else {
                    phase
                }
            },
            _ => phase,
        }
    }

    /// The phase of a new channel after `steps`.
    pub open spec fn phase_after(steps: Seq<ChannelStep<T>>) -> Phase<T>
        decreases steps.len(),
    {
        if steps.len() == 0 {
            Phase::Empty
        } else {
            Self::new().run(steps.drop_last()).advance(
                Self::phase_after(steps.drop_last()),
                steps.last(),
            )
        }
    }
}

/// A step takes a channel that is in a phase to the phase that the step leads
/// to.
pub proof fn lemma_step_follows_phase<T>(
    state: ChannelState<T>,
    phase: Phase<T>,
    step: ChannelStep<T>,
)
    requires
        state.in_phase(phase),
    ensures
        state.next(step).in_phase(state.advance(phase, step)),
{
}

/// Every run of a new channel leaves it in the phase that the steps lead to.
pub proof fn lemma_run_follows_phase<T>(steps: Seq<ChannelStep<T>>)
    ensures
        ChannelState::<T>::new().run(steps).in_phase(ChannelState::<T>::phase_after(steps)),
    decreases steps.len(),
{
    if steps.len() > 0 {
        lemma_run_follows_phase::<T>(steps.drop_last());
        lemma_step_follows_phase(
            ChannelState::<T>::new().run(steps.drop_last()),
            ChannelState::<T>::phase_after(steps.drop_last()),
            steps.last(),
        );
    }
}

/// A channel never goes back. Whatever steps follow a run, they leave the
/// channel in the phase it was in or in a later one: a channel that was
/// consumed is not ready again, and one that is in use is not empty again.
pub proof fn law_phase_never_goes_back<T>(steps: Seq<ChannelStep<T>>, more: Seq<ChannelStep<T>>)
    ensures
        ChannelState::<T>::phase_after(steps).rank() <= ChannelState::<T>::phase_after(
            steps + more,
        ).rank(),
    decreases more.len(),
{
    if more.len() == 0 {
        assert(steps + more == steps);
    } else {
        law_phase_never_goes_back(steps, more.drop_last());
        assert((steps + more).drop_last() == steps + more.drop_last());
        assert((steps + more).last() == more.last());
    }
}

/// A message comes out as it went in. However the steps of any number of
/// sends and receives interleave, a receive that returned a message returned
/// the message of a send that returned `Ok`.
pub proof fn law_received_is_sent<T>(steps: Seq<ChannelStep<T>>, receiver: nat, message: T)
    requires
        ChannelState::<T>::new().run(steps).receivers.dom().contains(receiver),
        ChannelState::<T>::new().run(steps).receivers[receiver].returned() == Some(
            Ok::<T, NotReady>(message),
        ),
    ensures
        exists|sender: nat|
            {
                &&& #[trigger] ChannelState::<T>::new().run(steps).senders.dom().contains(sender)
                &&& ChannelState::<T>::new().run(steps).senders[sender] == SendCall::Sent {
                    message,
                }
            },
{
    lemma_run_follows_phase::<T>(steps);
    let phase = ChannelState::<T>::phase_after(steps);
    assert(phase.receiver() == Some(receiver));
    assert(ChannelState::<T>::new().run(steps).senders.dom().contains(phase.sender()->Some_0));
}

/// One send wins. However the steps interleave, two sends that were not
/// rejected are one and the same call.
pub proof fn law_one_send_wins<T>(steps: Seq<ChannelStep<T>>, a: nat, b: nat)
    requires
        ChannelState::<T>::new().run(steps).senders.dom().contains(a),
        ChannelState::<T>::new().run(steps).senders.dom().contains(b),
        !(ChannelState::<T>::new().run(steps).senders[a] is Rejected),
        !(ChannelState::<T>::new().run(steps).senders[b] is Rejected),
    ensures
        a == b,
{
    lemma_run_follows_phase::<T>(steps);
}

/// One receive gets the message. However the steps interleave, two receives
/// that did not fail are one and the same call.
pub proof fn law_one_receive_wins<T>(steps: Seq<ChannelStep<T>>, a: nat, b: nat)
    requires
        ChannelState::<T>::new().run(steps).receivers.dom().contains(a),
        ChannelState::<T>::new().run(steps).receivers.dom().contains(b),
        !(ChannelState::<T>::new().run(steps).receivers[a] is Failed),
        !(ChannelState::<T>::new().run(steps).receivers[b] is Failed),
    ensures
        a == b,
{
    lemma_run_follows_phase::<T>(steps);
}

/// A send on a channel that is in use is rejected and changes nothing but its
/// own record: the flags and the slot stay as the first send left them, and
/// the refused message comes back in the error.
pub proof fn law_late_send_changes_nothing<T>(state: ChannelState<T>, call: nat, message: T)
    requires
        state.in_use,
        !state.senders.dom().contains(call),
    ensures
        ({
            let after = state.send(call, message);
            &&& after.senders[call].returned() == Some(
                Err::<(), SendError<T>>(SendError { message }),
            )
            &&& after.in_use == state.in_use
            &&& after.ready == state.ready
            &&& after.slot == state.slot
            &&& after.receivers == state.receivers
        }),
{
}

/// A receive on a channel whose ready flag is down fails and changes nothing
/// but its own record.
pub proof fn law_early_receive_changes_nothing<T>(state: ChannelState<T>, call: nat)
    requires
        !state.ready,
        !state.receivers.dom().contains(call),
    ensures
        ({
            let after = state.receive(call);
            &&& after.receivers[call].returned() == Some(Err::<T, NotReady>(NotReady))
            &&& after.in_use == state.in_use
            &&& after.ready == state.ready
            &&& after.slot == state.slot
            &&& after.senders == state.senders
        }),
{
}

/// No receive succeeds before a send has returned. However the steps
/// interleave, if a receive did not fail, then a send has raised the ready
/// flag before.
pub proof fn law_receive_needs_send<T>(steps: Seq<ChannelStep<T>>, receiver: nat)
    requires
        ChannelState::<T>::new().run(steps).receivers.dom().contains(receiver),
        !(ChannelState::<T>::new().run(steps).receivers[receiver] is Failed),
    ensures
        exists|sender: nat|
            {
                &&& #[trigger] ChannelState::<T>::new().run(steps).senders.dom().contains(sender)
                &&& ChannelState::<T>::new().run(steps).senders[sender] is Sent
            },
{
    lemma_run_follows_phase::<T>(steps);
    let phase = ChannelState::<T>::phase_after(steps);
    assert(phase.receiver() == Some(receiver));
    assert(ChannelState::<T>::new().run(steps).senders.dom().contains(phase.sender()->Some_0));
}

/// A message that is ready goes to the receive that comes for it. After any
/// run that leaves the ready flag up, which is what a poll of the flag then
/// sees, a receive that begins next and runs to its end returns the message
/// of the send that returned `Ok`.
pub proof fn law_ready_message_is_received<T>(steps: Seq<ChannelStep<T>>, receiver: nat)
    requires
        ChannelState::<T>::new().run(steps).ready,
        !ChannelState::<T>::new().run(steps).receivers.dom().contains(receiver),
    ensures
        ({
            let end = ChannelState::<T>::new().run(steps);
            let received = end.receive(receiver).receivers[receiver];
            &&& received is Received
            &&& exists|sender: nat|
                {
                    &&& #[trigger] end.senders.dom().contains(sender)
                    &&& end.senders[sender] == SendCall::Sent {
                        message: received->Received_message,
                    }
                }
        }),
{
    lemma_run_follows_phase::<T>(steps);
    let end = ChannelState::<T>::new().run(steps);
    let phase = ChannelState::<T>::phase_after(steps);
    assert(phase is Ready);
    assert(end.senders.dom().contains(phase->Ready_sender));
}

/// A channel that no send has touched drops no payload. What is dropped with
/// the channel is what the slot holds then; after any run in which no send
/// has begun, the slot is empty.
pub proof fn law_no_send_leaves_nothing<T>(steps: Seq<ChannelStep<T>>)
    requires
        forall|call: nat| !ChannelState::<T>::new().run(steps).senders.dom().contains(call),
    ensures
        ChannelState::<T>::new().run(steps).slot is None,
{
    lemma_run_follows_phase::<T>(steps);
    let end = ChannelState::<T>::new().run(steps);
    let phase = ChannelState::<T>::phase_after(steps);
    if phase.sender() is Some {
        assert(end.senders.dom().contains(phase.sender()->Some_0));
    }
}

/// A message that was sent and not received is dropped with the channel, once.
/// After any run in which a send has returned `Ok` and every receive so far
/// has failed, the slot holds the message of that send.
pub proof fn law_unreceived_message_is_left<T>(
    steps: Seq<ChannelStep<T>>,
    sender: nat,
    message: T,
)
    requires
        ChannelState::<T>::new().run(steps).senders.dom().contains(sender),
        ChannelState::<T>::new().run(steps).senders[sender] == (SendCall::Sent { message }),
        forall|receiver: nat|
            ChannelState::<T>::new().run(steps).receivers.dom().contains(receiver)
                ==> ChannelState::<T>::new().run(steps).receivers[receiver] is Failed,
    ensures
        ChannelState::<T>::new().run(steps).slot == Some(message),
{
    lemma_run_follows_phase::<T>(steps);
    let end = ChannelState::<T>::new().run(steps);
    let phase = ChannelState::<T>::phase_after(steps);
    assert(phase.sender() == Some(sender));
    if phase.receiver() is Some {
        assert(end.receivers.dom().contains(phase.receiver()->Some_0));
    }
}

/// A message that was received is not dropped a second time with the channel.
/// After any run in which a receive has returned a message, the slot is
/// empty.
pub proof fn law_received_message_is_gone<T>(steps: Seq<ChannelStep<T>>, receiver: nat)
    requires
        ChannelState::<T>::new().run(steps).receivers.dom().contains(receiver),
        ChannelState::<T>::new().run(steps).receivers[receiver] is Received,
    ensures
        ChannelState::<T>::new().run(steps).slot is None,
{
    lemma_run_follows_phase::<T>(steps);
}

/// A send followed by a receive hands over the message. In the protocol, on a
/// new channel and for any message, a send that runs to its end returns `Ok`,
/// and a receive after it returns that message.
pub proof fn law_round_trip<T>(message: T)
    ensures
        ({
            let end = ChannelState::<T>::new().send(0, message).receive(0);
            &&& end.senders[0].returned() == Some(Ok::<(), SendError<T>>(()))
            &&& end.receivers[0].returned() == Some(Ok::<T, NotReady>(message))
        }),
{
}

/// A second send is rejected and does not touch the first message. In the
/// protocol, on a new channel and for any two messages, after the send of
/// `first` the send of `second` returns `second` in its error, and a receive
/// after that returns `first`.
pub proof fn law_second_send_rejected<T>(first: T, second: T)
    ensures
        ({
            let end = ChannelState::<T>::new().send(0, first).send(1, second).receive(0);
            &&& end.senders[0].returned() == Some(Ok::<(), SendError<T>>(()))
            &&& end.senders[1].returned() == Some(
                Err::<(), SendError<T>>(SendError { message: second }),
            )
            &&& end.receivers[0].returned() == Some(Ok::<T, NotReady>(first))
        }),
{
}

/// A receive before any send fails and hands out nothing. In the protocol, on
/// a new channel the receive returns `Err` and leaves the slot empty, and the
/// channel still carries a message afterwards.
pub proof fn law_receive_before_send<T>(message: T)
    ensures
        ({
            let early = ChannelState::<T>::new().receive(0);
            let end = early.send(0, message).receive(1);
            &&& early.receivers[0].returned() == Some(Err::<T, NotReady>(NotReady))
            &&& early.slot is None
            &&& end.receivers[1].returned() == Some(Ok::<T, NotReady>(message))
        }),
{
}

} // verus!
