use tokio_messaging::{Action, Event, Phase, Subscription};

#[test]
fn a_new_subscription_waits_for_a_payload() {
    let s = Subscription::new();
    assert_eq!(s.phase(), Phase::Subscribed);
    assert!(!s.is_finished());
    assert!(s.accepts(&Event::<u8>::Received(1)));
    assert!(!s.accepts(&Event::<u8>::Completed));
}

#[test]
fn a_payload_is_handed_over_then_the_next_receive_follows() {
    let mut s = Subscription::new();
    assert_eq!(s.step(Event::Received(5u8)), Action::Invoke(5));
    assert_eq!(s.phase(), Phase::Processing);
    assert_eq!(s.step(Event::<u8>::Completed), Action::Receive);
    assert_eq!(s.phase(), Phase::Subscribed);
}

#[test]
fn no_receive_while_a_callback_runs() {
    let mut s = Subscription::new();
    s.step(Event::Received(1u8));
    assert!(!s.accepts(&Event::Received(2u8)));
    assert!(!s.accepts(&Event::<u8>::Lagged(1)));
    assert!(!s.accepts(&Event::<u8>::Closed));
    assert!(s.accepts(&Event::<u8>::Completed));
}

#[test]
fn a_lag_ends_the_subscription() {
    let mut s = Subscription::new();
    assert_eq!(s.step(Event::<u8>::Lagged(3)), Action::Stop);
    assert_eq!(s.phase(), Phase::Lagged);
    assert!(s.is_finished());
    assert!(!s.accepts(&Event::Received(9u8)));
    assert!(!s.accepts(&Event::<u8>::Completed));
}

#[test]
fn a_closure_ends_the_subscription() {
    let mut s = Subscription::new();
    assert_eq!(s.step(Event::<u8>::Closed), Action::Stop);
    assert_eq!(s.phase(), Phase::Closed);
    assert!(s.is_finished());
    assert!(!s.accepts(&Event::Received(9u8)));
}
