//! An in-process publish/subscribe broker over tokio's broadcast channels.
//!
//! Producers dispatch payloads under a message kind; every subscription to that
//! kind receives its own ordered copy of each payload dispatched after it started.
//!
//! - `registry`: the channel of each message kind, created on first use.
//! - `channel`: one kind's broadcast channel, with a backlog of `CAPACITY` payloads.
//! - `messaging`: the broker, which shares its registry behind a read/write lock.
//! - `subscription`: the state machine that a listener's receive loop follows.
mod message;
pub use message::{Message, MessageData};

mod channel;
pub use channel::{Channel, CAPACITY};

mod registry;
pub use registry::{
    channels_wf, lemma_kinds_isolated, lemma_one_channel_per_kind, resolution_run, resolves,
    Registry,
};

mod subscription;
pub use subscription::{
    accepts, brought, handed, invoked, is_terminal, lemma_callbacks_follow_arrivals,
    lemma_callbacks_never_overlap, lemma_failure_ends_run, lemma_terminal_is_final, next,
    received, subscription_run, Action, Event, Phase, Subscription,
};

mod messaging;
pub use messaging::{Messaging, RegistryInv};
