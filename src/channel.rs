use crate::message::MessageData;
use tokio::sync::broadcast::{Receiver, Sender};
use vstd::prelude::*;

verus! {

/// How many payloads a channel holds for a subscription that has not read them yet.
pub const CAPACITY: usize = 16;

/// tokio's broadcast sender, carried through unopened.
#[verifier::external_type_specification]
#[verifier::external_body]
#[verifier::reject_recursive_types(T)]
pub struct ExSender<T>(Sender<T>);

/// tokio's broadcast receiver, carried through unopened.
#[verifier::external_type_specification]
#[verifier::external_body]
#[verifier::reject_recursive_types(T)]
pub struct ExReceiver<T>(Receiver<T>);

/// Relies on tokio's `broadcast::channel`: it builds a linked sender and receiver,
/// and panics when the capacity is zero or above `usize::MAX / 2`.
pub assume_specification<T: Clone>[ tokio::sync::broadcast::channel::<T> ](capacity: usize) -> (
    Sender<T>,
    Receiver<T>,
)
    requires
        0 < capacity <= usize::MAX / 2,
;

/// Relies on tokio's `Sender::subscribe`: a new receiver of the same channel that
/// sees only the values sent after this call. It panics only once `usize::MAX / 4`
/// receivers are alive at the same time, which their memory alone rules out.
pub assume_specification<T>[ Sender::<T>::subscribe ](tx: &Sender<T>) -> Receiver<T>;

/// One message kind's broadcast channel.
///
/// Besides the sending half it keeps a receiver of its own that it never reads:
/// while the channel exists, a send always has a receiver to count and is never
/// refused.
#[verifier::reject_recursive_types(D)]
pub struct Channel<D> {
    sender: Sender<D>,
    keeper: Receiver<D>,
    capacity: usize,
}

impl<D> Channel<D> {
    /// The backlog size the channel was opened with.
    pub closed spec fn spec_capacity(&self) -> usize {
        self.capacity
    }
}

impl<D: MessageData> Channel<D> {
    /// Opens a channel with a backlog of `CAPACITY` payloads.
    pub fn new() -> (ch: Self)
        ensures
            ch.spec_capacity() == CAPACITY,
    {
        let capacity: usize = CAPACITY;
        let (sender, keeper) = tokio::sync::broadcast::channel(capacity);
        Channel { sender, keeper, capacity }
    }

    /// The backlog size the channel was opened with.
    pub fn capacity(&self) -> (c: usize)
        ensures
            c == self.spec_capacity(),
    {
        self.capacity
    }

    /// Relies on tokio's `Sender::send`, which refuses a value only when its channel
    /// has no receiver left. `keeper` is a receiver of this channel and lives as long
    /// as `self`, so the value is accepted, and counted against `keeper` at least.
    #[verifier::external_body]
    fn post(&self, data: D) -> (r: Option<usize>)
        ensures
            r is Some,
            r.unwrap() >= 1,
    {
        match self.sender.send(data) {
            Ok(n) => Some(n),
            Err(_) => None,
        }
    }

    /// Sends `data` to every subscription of this channel. The send is never refused.
    ///
    /// Returns how many receivers the value was counted against, the channel's own
    /// receiver included.
    pub fn send(&self, data: D) -> (n: usize)
        ensures
            n >= 1,
    {
        match self.post(data) {
            Some(n) => n,
            None => 0,
        }
    }

    /// A new subscription to this channel, starting after the last value sent.
    pub fn subscribe(&self) -> Receiver<D> {
        self.sender.subscribe()
    }
}

} // verus!
