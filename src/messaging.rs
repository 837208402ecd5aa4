use crate::channel::{Channel, CAPACITY};
use crate::message::{Message, MessageData};
use crate::registry::Registry;
use std::sync::Arc;
use tokio::sync::broadcast::Receiver;
use vstd::prelude::*;
use vstd::rwlock::{RwLock, RwLockPredicate};
use vstd::std_specs::hash::obeys_key_model;

verus! {

/// What the broker's lock keeps true of its registry.
pub struct RegistryInv;

impl<M: Message, D: MessageData> RwLockPredicate<Registry<M, D>> for RegistryInv {
    open spec fn inv(self, registry: Registry<M, D>) -> bool {
        registry.wf()
    }
}

/// The message broker: it dispatches payloads under a message kind to every
/// subscription of that kind.
///
/// Lookups of a kind whose channel exists share the lock; only opening a kind's
/// first channel takes it alone.
#[verifier::reject_recursive_types(M)]
#[verifier::reject_recursive_types(D)]
pub struct Messaging<M: Message, D: MessageData> {
    channels: RwLock<Registry<M, D>, RegistryInv>,
}

impl<M: Message, D: MessageData> Messaging<M, D> {
    #[verifier::type_invariant]
    spec fn inv(&self) -> bool {
        self.channels.pred() == RegistryInv
    }

    /// A broker with no channel yet.
    pub fn new() -> Self {
        let registry = Registry::new();
        Messaging { channels: RwLock::new(registry, Ghost(RegistryInv)) }
    }

    /// The channel of `message`, opened and registered first if it has none.
    ///
    /// A lookup under the shared lock serves every kind that already has a channel;
    /// otherwise, under the exclusive lock, it looks again and inserts, so that two callers
    /// racing on a new kind end up with the same channel.
    fn get_channel(&self, message: M) -> (channel: Arc<Channel<D>>)
        requires
            obeys_key_model::<M>(),
        ensures
            channel.spec_capacity() == CAPACITY,
    {
        proof {
            use_type_invariant(self);
        }
        let read = self.channels.acquire_read();
        let found = read.borrow().lookup(&message);
        read.release_read();
        match found {
            Some(channel) => channel,
            None => {
                let (mut registry, write) = self.channels.acquire_write();
                let channel = registry.get_or_create(message);
                write.release_write(registry);
                channel
            },
        }
    }

    /// Sends `data` to every current subscription of `message`, opening the kind's
    /// channel first if it has none. A subscription made later does not see it.
    ///
    /// The send is never refused: every channel keeps a receiver of its own.
    pub fn dispatch(&self, message: M, data: D)
        requires
            obeys_key_model::<M>(),
    {
        let channel = self.get_channel(message);
        let reached = channel.send(data);
        assert(reached >= 1);
    }

    /// A new subscription to `message`: a receiver of the kind's channel, opened
    /// first if it has none, that sees the payloads dispatched from now on.
    pub fn subscribe(&self, message: M) -> Receiver<D>
        requires
            obeys_key_model::<M>(),
    {
        let channel = self.get_channel(message);
        channel.subscribe()
    }
}

} // verus!
