//! Behavior of the shared state cell, the change channel and the
//! event-stream step.

use wot_thing_core::cell::StateCell;
use wot_thing_core::channel::ChangeChannel;
use wot_thing_core::stream::{flag_payload, reading_payload, stream_step, Frame, KEEPALIVE_SECONDS};

#[test]
fn read_returns_most_recent_completed_write() {
    let mut cell: StateCell<i32> = StateCell::new(1);
    assert_eq!(cell.read(), 1);
    cell.write(2);
    cell.write(3);
    assert_eq!(cell.read(), 3);
}

#[test]
fn subscriber_sees_events_after_subscription() {
    let mut ch: ChangeChannel<i32> = ChangeChannel::new(2);
    ch.publish(10);
    let mut cur = ch.subscribe();
    assert_eq!(ch.poll(&mut cur), None);
    ch.publish(20);
    assert_eq!(ch.poll(&mut cur), Some(20));
    assert_eq!(ch.poll(&mut cur), None);
}

#[test]
fn slow_subscriber_skips_overwritten_events() {
    let mut ch: ChangeChannel<i32> = ChangeChannel::new(2);
    let mut cur = ch.subscribe();
    ch.publish(1);
    ch.publish(2);
    ch.publish(3);
    // The window holds two events; the first aged out before the read.
    assert_eq!(ch.poll(&mut cur), Some(2));
    assert_eq!(ch.poll(&mut cur), Some(3));
    assert_eq!(ch.poll(&mut cur), None);
}

#[test]
fn publisher_never_blocks_on_a_stalled_subscriber() {
    let mut ch: ChangeChannel<i32> = ChangeChannel::new(2);
    let mut stalled = ch.subscribe();
    for i in 0..100 {
        ch.publish(i);
    }
    // The stalled subscriber simply resumes at the oldest retained event.
    assert_eq!(ch.drain(&mut stalled), vec![98, 99]);
}

#[test]
fn two_subscribers_both_receive_a_later_publish() {
    let mut ch: ChangeChannel<i32> = ChangeChannel::new(2);
    let mut early = ch.subscribe();
    ch.publish(7);
    let mut late = ch.subscribe();
    ch.publish(8);
    // The publish of 8 happened after both subscriptions: both receive it,
    // each at its own pace.
    let early_events = ch.drain(&mut early);
    let late_events = ch.drain(&mut late);
    assert!(early_events.contains(&8));
    assert!(late_events.contains(&8));
    assert_eq!(early_events, vec![7, 8]);
    assert_eq!(late_events, vec![8]);
}

#[test]
fn quiet_subscriber_gets_only_keepalives() {
    let mut ch: ChangeChannel<i32> = ChangeChannel::new(2);
    ch.publish(1);
    let mut cur = ch.subscribe();
    // Four wait cycles cover more than three keepalive intervals with no
    // underlying change: nothing but keepalive frames.
    assert!(KEEPALIVE_SECONDS * 4 > KEEPALIVE_SECONDS * 3);
    for _ in 0..4 {
        assert_eq!(stream_step(&ch, &mut cur), Frame::KeepAlive);
    }
}

#[test]
fn change_becomes_a_change_frame_then_quiet() {
    let mut ch: ChangeChannel<i32> = ChangeChannel::new(2);
    let mut cur = ch.subscribe();
    ch.publish(42);
    assert_eq!(stream_step(&ch, &mut cur), Frame::ValueChanged(42));
    assert_eq!(stream_step(&ch, &mut cur), Frame::KeepAlive);
}

#[test]
fn frame_payloads() {
    assert_eq!(reading_payload(&Frame::ValueChanged(2373)), Some("23.73".to_owned()));
    assert_eq!(reading_payload(&Frame::KeepAlive), None);
    assert_eq!(flag_payload(&Frame::ValueChanged(true)), Some("true".to_owned()));
    assert_eq!(flag_payload(&Frame::KeepAlive), None);
}
