//! A queue of messages for one owner at a time.

use std::collections::VecDeque;
use vstd::prelude::*;

verus! {

/// A channel as a queue of messages. Both ends take the channel by exclusive
/// reference, so a thread that shares it with others wraps it in a lock of
/// its own and waits there when [`SimpleChannel::receive`] finds nothing.
///
/// The newest message is received first.
pub struct SimpleChannel<T> {
    queue: VecDeque<T>,
}

impl<T> View for SimpleChannel<T> {
    type V = Seq<T>;

    /// The waiting messages, the next one to be received first.
    closed spec fn view(&self) -> Seq<T> {
        self.queue@
    }
}

impl<T> SimpleChannel<T> {
    /// A channel with no message in it.
    pub fn new() -> (channel: Self)
        ensures
            channel@ == Seq::<T>::empty(),
    {
        SimpleChannel { queue: VecDeque::new() }
    }

    /// Adds `message` at the front of the queue.
    pub fn send(&mut self, message: T)
        ensures
            final(self)@ == seq![message] + old(self)@,
    {
        self.queue.push_front(message);
    }

    /// Takes the message at the front of the queue. `None` says that the queue
    /// is empty: a receiver that shares the channel waits for a sender and
    /// asks again.
    pub fn receive(&mut self) -> (message: Option<T>)
        ensures
            old(self)@.len() == 0 ==> message is None && final(self)@ == old(self)@,
            old(self)@.len() > 0 ==> message == Some(old(self)@[0]) && final(self)@ == old(
                self,
            )@.drop_first(),
    {
        self.queue.pop_front()
    }
}

} // verus!
