//! Tests of the frame channel: what a subscriber that falls behind is told.

use racing_coach_client::pitwall::connection::SubscriberStats;
use racing_coach_client::pitwall::fanout::{
    account, reached, FrameChannel, FrameSubscriber, Polled,
};
use racing_coach_client::pitwall::schema::VariableSchema;
use racing_coach_client::pitwall::types::FramePacket;
use std::sync::Arc;

fn frame(tick: u32) -> Arc<FramePacket> {
    Arc::new(FramePacket::new(vec![0u8; 4], tick, 1, Arc::new(VariableSchema::new(4))))
}

fn next_tick(sub: &mut FrameSubscriber) -> Option<u32> {
    match sub.poll() {
        Polled::Item(f) => Some(f.tick),
        _ => None,
    }
}

#[test]
fn test_every_subscriber_sees_every_frame_in_order() {
    let channel = FrameChannel::with_capacity(16).unwrap();
    let mut first = channel.subscribe();
    let mut second = channel.subscribe();
    for tick in 0..10 {
        assert_eq!(channel.publish(frame(tick)), 2);
    }
    let a: Vec<u32> = (0..10).filter_map(|_| next_tick(&mut first)).collect();
    let b: Vec<u32> = (0..10).filter_map(|_| next_tick(&mut second)).collect();
    assert_eq!(a, (0..10).collect::<Vec<u32>>());
    assert_eq!(a, b);
    assert!(matches!(first.poll(), Polled::Empty));
    assert_eq!(first.stats, SubscriberStats { received: 10, lagged: 0 });
}

#[test]
fn test_stalled_subscriber_is_told_exactly_what_it_missed() {
    let channel = FrameChannel::with_capacity(4).unwrap();
    let mut fast = channel.subscribe();
    let mut stalled = channel.subscribe();
    for tick in 0..10 {
        channel.publish(frame(tick));
        // The fast subscriber keeps up and loses nothing.
        assert_eq!(next_tick(&mut fast), Some(tick));
    }
    // The stalled one missed six of ten: the channel holds the last four.
    match stalled.poll() {
        Polled::Lagged(n) => assert_eq!(n, 6),
        _ => panic!("expected a lag"),
    }
    // It resumes from the next fresh frame: no duplicate, no silent gap.
    let rest: Vec<u32> = (0..4).filter_map(|_| next_tick(&mut stalled)).collect();
    assert_eq!(rest, vec![6, 7, 8, 9]);
    assert!(matches!(stalled.poll(), Polled::Empty));
    assert_eq!(stalled.stats, SubscriberStats { received: 4, lagged: 6 });
    assert_eq!(fast.stats, SubscriberStats { received: 10, lagged: 0 });
}

#[test]
fn test_publish_without_subscribers_drops_the_frame() {
    let channel = FrameChannel::new();
    assert_eq!(channel.publish(frame(1)), 0);
    // A subscriber sees only what is published after it subscribed.
    let mut late = channel.subscribe();
    assert!(matches!(late.poll(), Polled::Empty));
    assert_eq!(channel.publish(frame(2)), 1);
    assert_eq!(next_tick(&mut late), Some(2));
}

#[test]
fn test_closed_channel_ends_the_stream() {
    let channel = FrameChannel::with_capacity(8).unwrap();
    let mut sub = channel.subscribe();
    channel.publish(frame(1));
    drop(channel);
    // What was published before the end is still delivered.
    assert_eq!(next_tick(&mut sub), Some(1));
    assert!(matches!(sub.poll(), Polled::Closed));
    assert_eq!(sub.stats, SubscriberStats { received: 1, lagged: 0 });
}

#[test]
fn test_channel_capacity_limits() {
    assert!(FrameChannel::with_capacity(0).is_none());
    assert!(FrameChannel::with_capacity(usize::MAX / 2 + 1).is_none());
    assert!(FrameChannel::with_capacity(1).is_some());
}

#[test]
fn test_default_capacity_holds_256_frames() {
    let channel = FrameChannel::new();
    let mut sub = channel.subscribe();
    for tick in 0..256 {
        channel.publish(frame(tick));
    }
    assert_eq!(next_tick(&mut sub), Some(0));
    for tick in 256..300 {
        channel.publish(frame(tick));
    }
    // 299 frames are unread, 256 are held: 43 are gone.
    match sub.poll() {
        Polled::Lagged(n) => assert_eq!(n, 43),
        _ => panic!("expected a lag"),
    }
    assert_eq!(next_tick(&mut sub), Some(44));
}

#[test]
fn test_reached_counts_no_subscriber_as_zero() {
    assert_eq!(reached(Some(3)), 3);
    assert_eq!(reached(Some(1)), 1);
    assert_eq!(reached(None), 0);
}

#[test]
fn test_account_counts_each_read() {
    let stats = SubscriberStats { received: 2, lagged: 5 };
    assert_eq!(
        account(stats, &Polled::Item(frame(1))),
        SubscriberStats { received: 3, lagged: 5 }
    );
    assert_eq!(account(stats, &Polled::Lagged(7)), SubscriberStats { received: 2, lagged: 12 });
    assert_eq!(account(stats, &Polled::Empty), stats);
    assert_eq!(account(stats, &Polled::Closed), stats);
    let full = SubscriberStats { received: u64::MAX, lagged: u64::MAX - 1 };
    assert_eq!(
        account(full, &Polled::Lagged(9)),
        SubscriberStats { received: u64::MAX, lagged: u64::MAX }
    );
}

#[test]
fn test_receiver_handed_out_reads_on_from_the_subscribers_position() {
    let channel = FrameChannel::with_capacity(8).unwrap();
    let mut sub = channel.subscribe();
    for tick in 0..5 {
        channel.publish(frame(tick));
    }
    assert_eq!(next_tick(&mut sub), Some(0));
    assert_eq!(next_tick(&mut sub), Some(1));
    // The receiver goes on where the subscriber stood.
    let mut rx = sub.into_receiver();
    assert_eq!(rx.try_recv().unwrap().tick, 2);
    // A subscriber made of it starts counting afresh and reads on.
    let mut again = FrameSubscriber::new(rx);
    assert_eq!(again.stats, SubscriberStats { received: 0, lagged: 0 });
    assert_eq!(next_tick(&mut again), Some(3));
    assert_eq!(next_tick(&mut again), Some(4));
    assert_eq!(again.stats, SubscriberStats { received: 2, lagged: 0 });
}
