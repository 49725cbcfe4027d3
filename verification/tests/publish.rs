use embassy_sync::blocking_mutex::raw::NoopRawMutex;
use embassy_sync::pubsub::PubSubChannel;
use geiger_core::counter::{PulseCounter, Reading};
use geiger_core::fraction::Fraction;

fn numbered(k: u64) -> Reading {
    Reading {
        dur: k,
        cpm: Some(Fraction { num: 60_000 * k as i128, den: 1_000 }),
        val: None,
    }
}

#[test]
fn two_subscribers_receive_the_same_reading() {
    let channel = PubSubChannel::<NoopRawMutex, Reading, 5, 2, 1>::new();
    let mut display = channel.subscriber().unwrap();
    let mut console = channel.subscriber().unwrap();
    let publisher = channel.publisher().unwrap();

    let mut counter = PulseCounter::new(0);
    counter.on_pulse(0);
    let reading = counter.on_pulse(1_000);
    publisher.publish_immediate(reading);

    assert_eq!(display.try_next_message_pure(), Some(reading));
    assert_eq!(console.try_next_message_pure(), Some(reading));
    assert_eq!(display.try_next_message_pure(), None);
    assert_eq!(console.try_next_message_pure(), None);
}

#[test]
fn a_third_subscriber_is_turned_away() {
    let channel = PubSubChannel::<NoopRawMutex, Reading, 5, 2, 1>::new();
    let _first = channel.subscriber().unwrap();
    let _second = channel.subscriber().unwrap();
    assert!(channel.subscriber().is_err());
}

#[test]
fn full_queue_drops_the_oldest_reading() {
    let channel = PubSubChannel::<NoopRawMutex, Reading, 5, 2, 1>::new();
    let mut idle = channel.subscriber().unwrap();
    let publisher = channel.publisher().unwrap();

    for k in 0..6u64 {
        publisher.publish_immediate(numbered(k));
    }

    for k in 1..6u64 {
        assert_eq!(idle.try_next_message_pure(), Some(numbered(k)));
    }
    assert_eq!(idle.try_next_message_pure(), None);
}

#[test]
fn publishing_goes_on_while_nobody_reads() {
    let channel = PubSubChannel::<NoopRawMutex, Reading, 5, 2, 1>::new();
    let mut idle = channel.subscriber().unwrap();
    let mut other = channel.subscriber().unwrap();
    let publisher = channel.publisher().unwrap();

    let mut counter = PulseCounter::new(0);
    let mut sent = Vec::new();
    for k in 0..1_000u64 {
        let reading = counter.on_pulse(k * 250);
        publisher.publish_immediate(reading);
        sent.push(reading);
    }

    for reading in &sent[995..] {
        assert_eq!(idle.try_next_message_pure(), Some(*reading));
        assert_eq!(other.try_next_message_pure(), Some(*reading));
    }
    assert_eq!(idle.try_next_message_pure(), None);
    assert_eq!(other.try_next_message_pure(), None);
}

#[test]
fn a_slow_subscriber_does_not_hold_back_a_fast_one() {
    let channel = PubSubChannel::<NoopRawMutex, Reading, 5, 2, 1>::new();
    let mut fast = channel.subscriber().unwrap();
    let mut slow = channel.subscriber().unwrap();
    let publisher = channel.publisher().unwrap();

    for k in 0..8u64 {
        publisher.publish_immediate(numbered(k));
        assert_eq!(fast.try_next_message_pure(), Some(numbered(k)));
    }
    for k in 3..8u64 {
        assert_eq!(slow.try_next_message_pure(), Some(numbered(k)));
    }
    assert_eq!(slow.try_next_message_pure(), None);
}
