//! Fan-out of frames over a broadcast channel: one sender, any number of
//! subscribers, none of which can hold the sender back. A subscriber that
//! falls behind by more than the channel holds loses the oldest frames and
//! is told how many.

use std::sync::Arc;
use tokio::sync::broadcast::{Receiver, Sender};
use vstd::prelude::*;

use super::connection::{RecvOutcome, SubscriberStats};
use super::driver::FRAME_BUFFER_CAPACITY;
use super::types::FramePacket;

verus! {

/// `tokio::sync::broadcast::Sender`, the sending half of a broadcast
/// channel. Nothing of its inside is known here.
#[verifier::external_type_specification]
#[verifier::external_body]
#[verifier::reject_recursive_types(T)]
pub struct ExSender<T>(Sender<T>);

/// `tokio::sync::broadcast::Receiver`, one receiving half of a broadcast
/// channel. Of its inside only the cursor has a name here.
#[verifier::external_type_specification]
#[verifier::external_body]
#[verifier::reject_recursive_types(T)]
pub struct ExReceiver<T>(Receiver<T>);

/// The position, in the sequence of all values sent on the channel, of the
/// value that a receiver reads next. It is the receiver's own: no send and
/// no other receiver changes it.
pub uninterp spec fn cursor(rx: Receiver<Arc<FramePacket>>) -> u64;

/// The number of frames that a channel was asked to hold when it was made:
/// the limit that was handed to `tokio::sync::broadcast::channel`. The
/// channel may hold more, up to the next power of two; that is not what
/// this names.
pub uninterp spec fn made_with(tx: Sender<Arc<FramePacket>>) -> usize;

/// A position `n` further on; positions wrap around.
pub open spec fn advanced(position: u64, n: u64) -> u64 {
    ((position as int + n as int) % 0x1_0000_0000_0000_0000) as u64
}

/// What a read that does not wait gave.
#[derive(Debug)]
pub enum Polled {
    /// The next frame.
    Item(Arc<FramePacket>),
    /// So many frames were overwritten before they were read.
    Lagged(u64),
    /// Nothing is waiting.
    Empty,
    /// All senders are gone and nothing is waiting.
    Closed,
}

/// Makes a channel that holds `capacity` frames, with
/// `tokio::sync::broadcast::channel`, and keeps its sender. The call panics
/// on a capacity of zero or above half of `usize::MAX`, which is ruled out.
/// Of the sender only this is claimed: `capacity` is what its channel was
/// made with.
#[verifier::external_body]
fn new_sender(capacity: usize) -> (tx: Sender<Arc<FramePacket>>)
    requires
        0 < capacity <= usize::MAX / 2,
    ensures
        made_with(tx) == capacity,
{
    tokio::sync::broadcast::channel(capacity).0
}

/// Sends a frame with `Sender::send`. The result is the number of
/// receivers at the time, which is not zero, or none where there is no
/// receiver and the frame is dropped.
#[verifier::external_body]
fn send(tx: &Sender<Arc<FramePacket>>, frame: Arc<FramePacket>) -> (r: Option<usize>)
    ensures
        r matches Some(n) ==> n > 0,
{
    match tx.send(frame) {
        Ok(n) => Some(n),
        Err(_) => None,
    }
}

/// Makes a receiver with `Sender::subscribe`: it will read what is sent
/// after this call.
#[verifier::external_body]
fn subscribe(tx: &Sender<Arc<FramePacket>>) -> (rx: Receiver<Arc<FramePacket>>) {
    tx.subscribe()
}

/// Reads with `Receiver::try_recv`. A value moves the receiver's cursor on
/// by one. A lag of `n`, which is never reported as zero, moves it on by
/// `n`, to the oldest value that the channel still holds. An empty channel
/// leaves it where it is.
#[verifier::external_body]
fn try_recv(rx: &mut Receiver<Arc<FramePacket>>) -> (r: Polled)
    ensures
        match r {
            Polled::Item(_) => cursor(*final(rx)) == advanced(cursor(*old(rx)), 1),
            Polled::Lagged(n) => n > 0 && cursor(*final(rx)) == advanced(cursor(*old(rx)), n),
            Polled::Empty => cursor(*final(rx)) == cursor(*old(rx)),
            Polled::Closed => true,
        },
{
    match rx.try_recv() {
        Ok(frame) => Polled::Item(frame),
        Err(tokio::sync::broadcast::error::TryRecvError::Lagged(n)) => Polled::Lagged(n),
        Err(tokio::sync::broadcast::error::TryRecvError::Empty) => Polled::Empty,
        Err(tokio::sync::broadcast::error::TryRecvError::Closed) => Polled::Closed,
    }
}

/// The number of subscribers that a send reached: the number that the
/// channel reported, or none where it reported that there is no subscriber.
pub open spec fn spec_reached(sent: Option<usize>) -> usize {
    match sent {
        Some(n) => n,
        None => 0,
    }
}

/// The number of subscribers that a send reached, given what the channel
/// reported of the send.
pub fn reached(sent: Option<usize>) -> (r: usize)
    ensures
        r == spec_reached(sent),
{
    match sent {
        Some(n) => n,
        None => 0,
    }
}

/// The counts of a subscriber after a read: a frame is one more received,
/// a lag of `n` is `n` more lost, and an empty or closed channel changes
/// nothing.
pub open spec fn spec_account(stats: SubscriberStats, polled: Polled) -> SubscriberStats {
    match polled {
        Polled::Item(_) => stats.counted(1, 0),
        Polled::Lagged(n) => stats.counted(0, n as nat),
        Polled::Empty => stats,
        Polled::Closed => stats,
    }
}

/// The counts of a subscriber after a read that gave `polled`.
pub fn account(stats: SubscriberStats, polled: &Polled) -> (r: SubscriberStats)
    ensures
        r == spec_account(stats, *polled),
{
    let mut counted = stats;
    match polled {
        Polled::Item(_) => {
            let _ = counted.on_recv(RecvOutcome::Item(()));
        },
        Polled::Lagged(n) => {
            let _ = counted.on_recv(RecvOutcome::<()>::Lagged(*n));
        },
        Polled::Empty => {},
        Polled::Closed => {},
    }
    counted
}

/// The sending side of the frame channel.
pub struct FrameChannel {
    pub tx: Sender<Arc<FramePacket>>,
}

/// One subscriber of the frame channel, with the count of what it has
/// received and what it has lost.
pub struct FrameSubscriber {
    pub rx: Receiver<Arc<FramePacket>>,
    pub stats: SubscriberStats,
}

impl FrameChannel {
    /// The number of frames that the channel was made to hold.
    pub open spec fn capacity(&self) -> usize {
        made_with(self.tx)
    }

    /// A channel of the capacity that the driver uses for frames.
    pub fn new() -> (r: Self)
        ensures
            r.capacity() == FRAME_BUFFER_CAPACITY,
    {
        FrameChannel { tx: new_sender(FRAME_BUFFER_CAPACITY) }
    }

    /// A channel of a given capacity; none where the capacity is zero or
    /// more than half of the largest number.
    pub fn with_capacity(capacity: usize) -> (r: Option<Self>)
        ensures
            r is Some <==> 0 < capacity <= usize::MAX / 2,
            r matches Some(channel) ==> channel.capacity() == capacity,
    {
        if capacity > 0 && capacity <= usize::MAX / 2 {
            Some(FrameChannel { tx: new_sender(capacity) })
        } else {
            None
        }
    }

    /// Publishes a frame to all subscribers, best effort: it never waits,
    /// and without subscribers the frame is dropped. The result is the
    /// number of subscribers at the time.
    pub fn publish(&self, frame: Arc<FramePacket>) -> (r: usize) {
        reached(send(&self.tx, frame))
    }

    /// A new subscriber, which sees the frames published from now on.
    pub fn subscribe(&self) -> (r: FrameSubscriber)
        ensures
            r.stats == (SubscriberStats { received: 0, lagged: 0 }),
    {
        FrameSubscriber::new(subscribe(&self.tx))
    }
}

impl FrameSubscriber {
    /// The subscriber that reads from a receiver and has counted nothing yet.
    pub fn new(rx: Receiver<Arc<FramePacket>>) -> (r: Self)
        ensures
            r.rx == rx,
            r.stats == (SubscriberStats { received: 0, lagged: 0 }),
    {
        FrameSubscriber { rx, stats: SubscriberStats::new() }
    }

    /// The position of the frame that the subscriber reads next.
    pub open spec fn position(&self) -> u64 {
        cursor(self.rx)
    }

    /// Reads without waiting. Every read accounts for the positions that it
    /// passes: a frame is one position and is counted as received; a lag
    /// of `n` is `n` positions, counted as lost, after which reading goes
    /// on with the oldest frame that is still there. So no position is
    /// read twice and none is passed over without being counted.
    pub fn poll(&mut self) -> (r: Polled)
        ensures
            final(self).stats == spec_account(old(self).stats, r),
            match r {
                Polled::Item(_) => final(self).position() == advanced(old(self).position(), 1),
                Polled::Lagged(n) => n > 0 && final(self).position() == advanced(
                    old(self).position(),
                    n,
                ),
                Polled::Empty => final(self).position() == old(self).position(),
                Polled::Closed => true,
            },
    {
        let polled = try_recv(&mut self.rx);
        self.stats = account(self.stats, &polled);
        polled
    }

    /// Hands out the receiver, for a stream that waits for frames: the
    /// subscriber's own, which reads on from the subscriber's position.
    pub fn into_receiver(self) -> (rx: Receiver<Arc<FramePacket>>)
        ensures
            rx == self.rx,
            cursor(rx) == self.position(),
    {
        self.rx
    }
}

} // verus!
