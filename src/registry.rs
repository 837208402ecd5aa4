use crate::channel::{Channel, CAPACITY};
use crate::message::{Message, MessageData};
use std::collections::HashMap;
use std::sync::Arc;
use vstd::prelude::*;
use vstd::std_specs::hash::obeys_key_model;

verus! {

/// The channel of each message kind that has been used so far.
#[verifier::reject_recursive_types(M)]
#[verifier::reject_recursive_types(D)]
pub struct Registry<M, D> {
    channels: HashMap<M, Arc<Channel<D>>>,
}

impl<M, D> View for Registry<M, D> {
    type V = Map<M, Arc<Channel<D>>>;

    closed spec fn view(&self) -> Map<M, Arc<Channel<D>>> {
        self.channels@
    }
}

/// Every registered channel was opened with the standard backlog.
pub open spec fn channels_wf<M, D>(channels: Map<M, Arc<Channel<D>>>) -> bool {
    forall|k: M| #[trigger] channels.contains_key(k) ==> channels[k].spec_capacity() == CAPACITY
}

/// `after` is `before` once the channel for `message` has been looked up or created,
/// and `channel` is what that step handed out: the one already registered, if any.
pub open spec fn resolves<M, D>(
    before: Map<M, Arc<Channel<D>>>,
    message: M,
    after: Map<M, Arc<Channel<D>>>,
    channel: Arc<Channel<D>>,
) -> bool {
    &&& after == before.insert(message, channel)
    &&& before.contains_key(message) ==> channel == before[message]
}

/// A run of lookups on one registry: `maps[i + 1]` is `maps[i]` once the channel for
/// `keys[i]` was resolved, which handed out `handed[i]`.
pub open spec fn resolution_run<M, D>(
    keys: Seq<M>,
    maps: Seq<Map<M, Arc<Channel<D>>>>,
    handed: Seq<Arc<Channel<D>>>,
) -> bool {
    &&& maps.len() == keys.len() + 1
    &&& handed.len() == keys.len()
    &&& forall|i: int| 0 <= i < keys.len() ==> #[trigger] resolves(maps[i], keys[i], maps[i + 1], handed[i])
}

proof fn lemma_channel_stays<M, D>(
    keys: Seq<M>,
    maps: Seq<Map<M, Arc<Channel<D>>>>,
    handed: Seq<Arc<Channel<D>>>,
    i: int,
    t: int,
)
    requires
        resolution_run(keys, maps, handed),
        0 <= i < t <= keys.len(),
    ensures
        maps[t].contains_key(keys[i]),
        maps[t][keys[i]] == handed[i],
    decreases t - i,
{
    if t == i + 1 {
        assert(resolves(maps[i], keys[i], maps[i + 1], handed[i]));
    } else {
        let s = t - 1;
        lemma_channel_stays(keys, maps, handed, i, s);
        assert(resolves(maps[s], keys[s], maps[s + 1], handed[s]));
    }
}

/// A message kind has a single channel for the whole life of a registry: every lookup
/// of the same kind hands out the channel that the first one did.
pub proof fn lemma_one_channel_per_kind<M, D>(
    keys: Seq<M>,
    maps: Seq<Map<M, Arc<Channel<D>>>>,
    handed: Seq<Arc<Channel<D>>>,
    i: int,
    j: int,
)
    requires
        resolution_run(keys, maps, handed),
        0 <= i < j < keys.len(),
        keys[i] == keys[j],
    ensures
        handed[j] == handed[i],
{
    lemma_channel_stays(keys, maps, handed, i, j);
    assert(resolves(maps[j], keys[j], maps[j + 1], handed[j]));
}

/// Resolving the channel of one message kind leaves every other kind's channel, or
/// its absence, as it was.
pub proof fn lemma_kinds_isolated<M, D>(
    before: Map<M, Arc<Channel<D>>>,
    message: M,
    after: Map<M, Arc<Channel<D>>>,
    channel: Arc<Channel<D>>,
    other: M,
)
    requires
        resolves(before, message, after, channel),
        other != message,
    ensures
        after.contains_key(other) == before.contains_key(other),
        before.contains_key(other) ==> after[other] == before[other],
{
}

impl<M: Message, D: MessageData> Registry<M, D> {
    pub open spec fn wf(&self) -> bool {
        channels_wf(self@)
    }

    /// A registry with no channel yet.
    pub fn new() -> (r: Self)
        ensures
            r@ == Map::<M, Arc<Channel<D>>>::empty(),
            r.wf(),
    {
        Registry { channels: HashMap::new() }
    }

    /// The channel registered for `message`, if there is one.
    pub fn lookup(&self, message: &M) -> (r: Option<Arc<Channel<D>>>)
        requires
            obeys_key_model::<M>(),
        ensures
            r == (if self@.contains_key(*message) {
                Some(self@[*message])
            } else {
                None
            }),
    {
        match self.channels.get(message) {
            Some(channel) => Some(channel.clone()),
            None => None,
        }
    }

    /// The channel registered for `message`, opened and registered first if there is none.
    pub fn get_or_create(&mut self, message: M) -> (r: Arc<Channel<D>>)
        requires
            obeys_key_model::<M>(),
            old(self).wf(),
        ensures
            final(self).wf(),
            resolves(old(self)@, message, final(self)@, r),
            r.spec_capacity() == CAPACITY,
    {
        match self.channels.get(&message) {
            Some(channel) => {
                let found = channel.clone();
                proof {
                    assert(self@.insert(message, found) =~= self@);
                }
                found
            },
            None => {
                let channel = Arc::new(Channel::new());
                self.channels.insert(message, channel.clone());
                channel
            },
        }
    }
}

} // verus!
