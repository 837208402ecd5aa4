use std::sync::Arc;
use tokio_messaging::{Channel, Message, MessageData, Registry, CAPACITY};

#[derive(Clone, Copy, Debug, Hash, PartialEq, Eq)]
struct Kind(u32);

impl Message for Kind {}

#[derive(Clone, Copy, Debug, PartialEq, Eq)]
struct Payload(u64);

impl MessageData for Payload {}

#[test]
fn fresh_registry_has_no_channel() {
    let registry: Registry<Kind, Payload> = Registry::new();
    assert!(registry.lookup(&Kind(7)).is_none());
}

#[test]
fn same_kind_gets_the_same_channel() {
    let mut registry: Registry<Kind, Payload> = Registry::new();
    let first = registry.get_or_create(Kind(7));
    let second = registry.get_or_create(Kind(7));
    assert!(Arc::ptr_eq(&first, &second));
    let found = registry.lookup(&Kind(7)).unwrap();
    assert!(Arc::ptr_eq(&first, &found));
}

#[test]
fn other_kinds_keep_their_channels() {
    let mut registry: Registry<Kind, Payload> = Registry::new();
    let a = registry.get_or_create(Kind(1));
    let b = registry.get_or_create(Kind(2));
    assert!(!Arc::ptr_eq(&a, &b));
    let a_again = registry.lookup(&Kind(1)).unwrap();
    assert!(Arc::ptr_eq(&a, &a_again));
    assert!(registry.lookup(&Kind(3)).is_none());
}

#[test]
fn channels_are_opened_with_a_backlog_of_sixteen() {
    let mut registry: Registry<Kind, Payload> = Registry::new();
    assert_eq!(CAPACITY, 16);
    assert_eq!(registry.get_or_create(Kind(5)).capacity(), 16);
    let channel: Channel<Payload> = Channel::new();
    assert_eq!(channel.capacity(), 16);
}

#[test]
fn a_send_counts_the_channel_receiver_and_each_subscription() {
    let channel: Channel<Payload> = Channel::new();
    assert_eq!(channel.send(Payload(1)), 1);
    let _a = channel.subscribe();
    let _b = channel.subscribe();
    assert_eq!(channel.send(Payload(2)), 3);
}

#[test]
fn a_channel_subscription_sees_later_values_only() {
    let channel: Channel<Payload> = Channel::new();
    channel.send(Payload(10));
    let mut rx = channel.subscribe();
    channel.send(Payload(20));
    assert_eq!(rx.try_recv().unwrap(), Payload(20));
    assert!(rx.try_recv().is_err());
}
