use simplersble::{lag_error, EventBus, Received, BUS_CAPACITY};

fn next(subscriber: &mut simplersble::Subscriber<u32>) -> Option<u32> {
    match subscriber.try_next() {
        Received::Event(value) => Some(value),
        _ => None,
    }
}

#[test]
fn publish_without_subscribers_reaches_nobody() {
    let mut bus: EventBus<u32> = EventBus::new();
    assert_eq!(bus.publish(7), 0);
    assert_eq!(bus.publish(8), 0);
}

#[test]
fn publish_counts_the_subscribers() {
    let mut bus: EventBus<u32> = EventBus::new();
    let first = bus.subscribe();
    assert_eq!(bus.publish(1), 1);
    let second = bus.subscribe();
    assert_eq!(bus.publish(2), 2);
    drop(first);
    assert_eq!(bus.publish(3), 1);
    drop(second);
    assert_eq!(bus.publish(4), 0);
}

#[test]
fn subscriber_sees_what_is_published_after_it_subscribed() {
    let mut bus: EventBus<u32> = EventBus::new();
    let mut early = bus.subscribe();
    bus.publish(1);
    let mut late = bus.subscribe();
    bus.publish(2);
    assert_eq!(next(&mut early), Some(1));
    assert_eq!(next(&mut early), Some(2));
    assert!(matches!(early.try_next(), Received::Empty));
    assert_eq!(next(&mut late), Some(2));
    assert!(matches!(late.try_next(), Received::Empty));
}

#[test]
fn every_subscriber_gets_every_event_once() {
    let mut bus: EventBus<u32> = EventBus::new();
    let mut a = bus.subscribe();
    let mut b = bus.subscribe();
    bus.publish(10);
    bus.publish(20);
    for subscriber in [&mut a, &mut b] {
        assert_eq!(next(subscriber), Some(10));
        assert_eq!(next(subscriber), Some(20));
        assert!(matches!(subscriber.try_next(), Received::Empty));
    }
}

#[test]
fn a_bus_retains_its_capacity() {
    assert_eq!(BUS_CAPACITY, 128);
    let mut bus: EventBus<u32> = EventBus::new();
    let mut subscriber = bus.subscribe();
    for i in 0..128 {
        bus.publish(i);
    }
    for i in 0..128 {
        assert_eq!(next(&mut subscriber), Some(i));
    }
    assert!(matches!(subscriber.try_next(), Received::Empty));
}

#[test]
fn lagging_subscriber_is_told_what_it_missed() {
    let mut bus: EventBus<u32> = EventBus::new();
    let mut slow = bus.subscribe();
    let mut fast = bus.subscribe();
    for i in 0..130 {
        assert_eq!(bus.publish(i), 2);
        assert_eq!(next(&mut fast), Some(i));
    }
    assert!(matches!(slow.try_next(), Received::Lagged(2)));
    assert_eq!(next(&mut slow), Some(2));
    assert_eq!(next(&mut slow), Some(3));
    assert!(matches!(fast.try_next(), Received::Empty));
}

#[test]
fn subscription_ends_when_the_bus_goes() {
    let mut bus: EventBus<u32> = EventBus::new();
    let mut subscriber = bus.subscribe();
    bus.publish(5);
    drop(bus);
    assert_eq!(next(&mut subscriber), Some(5));
    assert!(matches!(subscriber.try_next(), Received::Closed));
    assert!(matches!(subscriber.try_next(), Received::Closed));
}

#[test]
fn receiver_of_a_subscriber_goes_on_where_it_was() {
    let mut bus: EventBus<u32> = EventBus::new();
    let mut subscriber = bus.subscribe();
    bus.publish(1);
    bus.publish(2);
    assert_eq!(next(&mut subscriber), Some(1));
    let mut receiver = subscriber.into_receiver();
    assert_eq!(receiver.try_recv().ok(), Some(2));
}

#[test]
fn lag_error_names_the_number_of_missed_events() {
    assert_eq!(lag_error(2).message(), "channel lagged by 2");
    assert_eq!(lag_error(0).message(), "channel lagged by 0");
    assert_eq!(lag_error(10).message(), "channel lagged by 10");
    assert_eq!(lag_error(907).message(), "channel lagged by 907");
    assert_eq!(
        lag_error(u64::MAX).message(),
        "channel lagged by 18446744073709551615"
    );
    assert_eq!(lag_error(41).to_string(), "SimpleBLE error: channel lagged by 41");
}
