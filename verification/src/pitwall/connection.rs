//! The connection facade: typed subscriptions on a source whose schema is
//! known, each with its own extraction plan and rate control.

use std::sync::Arc;
use vstd::prelude::*;

use super::adapters::{AdapterValidation, FieldSpec, FieldValue};
use super::driver::share;
use super::frame_adapter::{is_missing, spec_adapt, FrameAdapter, FrameLayout};
use super::provider::ReplayProvider;
use super::frame_derive::StrategySpec;
use super::schema::{VariableLayout, VariableSchema};
use super::stream::{passed, spec_rate_control, RateControl};
use super::types::{FramePacket, TelemetryError, UpdateRate};

verus! {

/// One decoded frame: the tick it belongs to and what the adapter made of
/// its bytes.
#[derive(Debug)]
pub struct DecodedFrame<F> {
    pub tick: u32,
    pub frame: F,
}

/// A frame decoded by a layout, as a mathematical value: the tick and the
/// value of each field of the consumer type, in the order of its
/// declaration.
pub struct FrameSpec {
    pub tick: u32,
    pub values: Seq<FieldValue>,
}

/// A packet as it reaches a subscriber: its tick, its bytes, and the time
/// of its arrival in nanoseconds of a monotonic clock.
pub struct Arrival {
    pub tick: u32,
    pub data: Seq<u8>,
    pub at: u64,
}

/// What a subscription yields for a sequence of arrivals: the frames that
/// pass its rate control, decoded, in the order of arrival.
pub open spec fn spec_stream(
    strategies: Seq<StrategySpec>,
    plan: Seq<FieldSpec>,
    rate: RateControl,
    arrivals: Seq<Arrival>,
) -> Seq<FrameSpec>
    decreases arrivals.len(),
{
    if arrivals.len() == 0 {
        Seq::empty()
    } else {
        let first = arrivals[0];
        let rest = spec_stream(strategies, plan, rate.spec_after(first.at), arrivals.drop_first());
        if rate.spec_passes(first.at) {
            seq![FrameSpec { tick: first.tick, values: spec_adapt(strategies, plan, first.data) }]
                + rest
        } else {
            rest
        }
    }
}

/// One subscription: the adapter of the consumer type, the plan that
/// validation made, and the state of its rate control. Nothing of it is
/// shared with another subscription.
#[derive(Debug)]
pub struct Subscription<A: FrameAdapter> {
    pub adapter: A,
    pub validation: AdapterValidation,
    pub rate: RateControl,
}

impl<A: FrameAdapter> Subscription<A> {
    /// Whether a packet that arrives at `now_nanos` would be decoded.
    pub fn would_decode(&self, now_nanos: u64) -> (r: bool)
        ensures
            r == self.rate.spec_passes(now_nanos),
    {
        let mut probe = self.rate;
        probe.passes(now_nanos)
    }

    /// Whether the adapter can decode the packet by the plan without a fault.
    pub fn can_decode(&self, packet: &FramePacket) -> (r: bool)
        ensures
            r == self.adapter.can_decode(self.validation@, packet.data@),
    {
        self.adapter.can_adapt(packet, &self.validation)
    }

    /// Takes the next packet of the source. A packet that the rate control
    /// lets through is decoded by the plan; any other is dropped.
    pub fn decode(&mut self, packet: &FramePacket, now_nanos: u64) -> (r: Option<
        DecodedFrame<A::Frame>,
    >)
        requires
            old(self).rate.spec_passes(now_nanos) ==> old(self).adapter.can_decode(
                old(self).validation@,
                packet.data@,
            ),
        ensures
            final(self).adapter == old(self).adapter,
            final(self).validation == old(self).validation,
            final(self).rate == old(self).rate.spec_after(now_nanos),
            match r {
                Some(f) => {
                    &&& old(self).rate.spec_passes(now_nanos)
                    &&& f.tick == packet.tick
                    &&& old(self).adapter.describes(old(self).validation@, packet.data@, f.frame)
                },
                None => !old(self).rate.spec_passes(now_nanos),
            },
    {
        if self.rate.passes(now_nanos) {
            let frame = self.adapter.adapt(packet, &self.validation);
            Some(DecodedFrame { tick: packet.tick, frame })
        } else {
            None
        }
    }
}

/// A frame that has to be decoded cannot be: a required field does not
/// read from it. That is a fault of the program, not of the data, and
/// nothing that a subscriber could recover from.
#[derive(Debug, Clone, Copy, PartialEq, Eq, Structural)]
pub struct DecodeFault {
    /// The tick of the frame.
    pub tick: u32,
}

impl<A: FrameAdapter> Subscription<A> {
    /// Takes the next packet of the source, as `decode` does, but tests
    /// first whether the packet can be decoded. Where the rate control
    /// lets the packet through and it cannot be decoded, the fault is
    /// reported and the subscription stays as it was.
    pub fn try_decode(&mut self, packet: &FramePacket, now_nanos: u64) -> (r: Result<
        Option<DecodedFrame<A::Frame>>,
        DecodeFault,
    >)
        ensures
            final(self).adapter == old(self).adapter,
            final(self).validation == old(self).validation,
            match r {
                Ok(Some(f)) => {
                    &&& old(self).rate.spec_passes(now_nanos)
                    &&& old(self).adapter.can_decode(old(self).validation@, packet.data@)
                    &&& f.tick == packet.tick
                    &&& old(self).adapter.describes(old(self).validation@, packet.data@, f.frame)
                    &&& final(self).rate == old(self).rate.spec_after(now_nanos)
                },
                Ok(None) => {
                    &&& !old(self).rate.spec_passes(now_nanos)
                    &&& final(self).rate == old(self).rate.spec_after(now_nanos)
                },
                Err(fault) => {
                    &&& old(self).rate.spec_passes(now_nanos)
                    &&& !old(self).adapter.can_decode(old(self).validation@, packet.data@)
                    &&& fault.tick == packet.tick
                    &&& final(self).rate == old(self).rate
                },
            },
    {
        if self.would_decode(now_nanos) && !self.can_decode(packet) {
            return Err(DecodeFault { tick: packet.tick });
        }
        Ok(self.decode(packet, now_nanos))
    }
}

impl Subscription<FrameLayout> {
    /// Whether the packet is decoded or dropped, and if decoded, into what.
    pub open spec fn spec_decode(&self, packet: FramePacket, now: u64) -> Option<FrameSpec> {
        if self.rate.spec_passes(now) {
            Some(
                FrameSpec {
                    tick: packet.tick,
                    values: spec_adapt(self.adapter@, self.validation@, packet.data@),
                },
            )
        } else {
            None
        }
    }

    /// What the subscription yields for a sequence of arrivals.
    pub open spec fn stream(&self, arrivals: Seq<Arrival>) -> Seq<FrameSpec> {
        spec_stream(self.adapter@, self.validation@, self.rate, arrivals)
    }
}

/// A frame that a layout decoded, as a mathematical value.
pub open spec fn frame_view(f: DecodedFrame<Vec<FieldValue>>) -> FrameSpec {
    FrameSpec { tick: f.tick, values: f.frame@ }
}

/// What `decode` does on a layout, packet by packet, is what `spec_decode`
/// says, and so what `stream` says of the whole sequence.
pub proof fn lemma_decode_of_layout(
    sub: Subscription<FrameLayout>,
    packet: FramePacket,
    now: u64,
    r: Option<DecodedFrame<Vec<FieldValue>>>,
)
    requires
        match r {
            Some(f) => sub.rate.spec_passes(now) && f.tick == packet.tick && sub.adapter.describes(
                sub.validation@,
                packet.data@,
                f.frame,
            ),
            None => !sub.rate.spec_passes(now),
        },
    ensures
        match r {
            Some(f) => sub.spec_decode(packet, now) == Some(frame_view(f)),
            None => sub.spec_decode(packet, now) is None,
        },
{
}

/// What validation gave for a subscription: the plan that the subscription
/// holds, or the error.
pub open spec fn subscribed<A: FrameAdapter>(r: Result<Subscription<A>, TelemetryError>) -> Result<
    AdapterValidation,
    TelemetryError,
> {
    match r {
        Ok(s) => Ok(s.validation),
        Err(e) => Err(e),
    }
}

/// A source whose schema and rate are known.
#[derive(Debug)]
pub struct Connection {
    /// The variable schema, fetched once at connect time.
    pub schema: Arc<VariableSchema>,
    /// Packets per second of the source.
    pub source_hz: u32,
}

impl Connection {
    /// The invariant of a connection: its schema is well formed.
    pub open spec fn wf(&self) -> bool {
        self.schema.wf()
    }

    /// A connection to a source with the given schema and rate.
    pub fn new(schema: Arc<VariableSchema>, source_hz: u32) -> (r: Self)
        requires
            schema.wf(),
        ensures
            r.wf(),
            r.schema == schema,
            r.source_hz == source_hz,
    {
        Connection { schema, source_hz }
    }

    /// The connection to a replayed recording. Its schema is the schema
    /// that every packet of the replay carries, so a plan that was
    /// validated on the connection decodes packets of the schema it was
    /// made for.
    pub fn to_replay(provider: &ReplayProvider) -> (r: Self)
        requires
            provider.wf(),
        ensures
            r.wf(),
            r.schema == provider.recording.schema,
            r.source_hz == provider.pacing.tick_rate_hz,
    {
        Connection {
            schema: share(&provider.recording.schema),
            source_hz: provider.tick_rate(),
        }
    }

    /// Packets per second of the source.
    pub fn source_hz(&self) -> (r: u32)
        ensures
            r == self.source_hz,
    {
        self.source_hz
    }

    /// The variable schema.
    pub fn schema(&self) -> (r: &VariableSchema)
        ensures
            *r == *self.schema,
    {
        &self.schema
    }

    /// Subscribes a consumer type, by its adapter, at a rate. The adapter
    /// validates the schema once, here; where it fails, as it does when a
    /// required field is absent, the subscription fails before anything
    /// is decoded.
    pub fn subscribe<A: FrameAdapter>(&self, adapter: A, rate: UpdateRate) -> (r: Result<
        Subscription<A>,
        TelemetryError,
    >)
        requires
            self.wf(),
        ensures
            adapter.validates(self.schema.layouts(), self.schema.names(), subscribed(r)),
            match r {
                Ok(s) => s.adapter == adapter && s.rate == spec_rate_control(rate, self.source_hz),
                Err(_) => true,
            },
    {
        match adapter.validate_schema(&self.schema) {
            Ok(validation) => Ok(
                Subscription { adapter, validation, rate: RateControl::for_rate(rate, self.source_hz) },
            ),
            Err(e) => Err(e),
        }
    }
}

/// Two subscriptions of one consumer type at one rate, on one source,
/// yield the same frames in the same order of ticks, whatever arrives.
/// The premises are what `subscribe` ensures of each of the two: the plan
/// is the one that validation makes of the layout on the schema of the
/// connection, and the rate control is the one that the requested rate
/// asks for on the rate of the source.
pub proof fn lemma_equal_subscriptions_agree(
    a: Subscription<FrameLayout>,
    b: Subscription<FrameLayout>,
    schema: Seq<VariableLayout>,
    names: Seq<Seq<char>>,
    rate: UpdateRate,
    source_hz: u32,
    arrivals: Seq<Arrival>,
)
    requires
        a.adapter@ == b.adapter@,
        a.adapter.validates(schema, names, Ok(a.validation)),
        b.adapter.validates(schema, names, Ok(b.validation)),
        a.rate == spec_rate_control(rate, source_hz),
        b.rate == spec_rate_control(rate, source_hz),
    ensures
        a.validation@ == b.validation@,
        a.stream(arrivals) == b.stream(arrivals),
{
}

/// A subscription of a layout fails exactly when a field requires a
/// variable that the schema lacks: with such a field there is no plan, and
/// so nothing that could decode a frame.
pub proof fn lemma_absent_required_has_no_plan(
    layout: FrameLayout,
    schema: Seq<VariableLayout>,
    i: int,
)
    requires
        0 <= i < layout@.len(),
        is_missing(layout@[i], schema),
    ensures
        forall|names: Seq<Seq<char>>, r: Result<AdapterValidation, TelemetryError>|
            #[trigger] layout.validates(schema, names, r) ==> r is Err,
{
}

/// What `decode` yields packet by packet is what `stream` yields for the
/// whole sequence: the first arrival decides on the first frame, and the
/// rest is the stream of the remaining arrivals under the rate control as
/// the first arrival left it.
pub proof fn lemma_stream_unfolds(
    strategies: Seq<StrategySpec>,
    plan: Seq<FieldSpec>,
    rate: RateControl,
    first: Arrival,
    rest: Seq<Arrival>,
)
    ensures
        spec_stream(strategies, plan, rate, seq![first] + rest) == if rate.spec_passes(first.at) {
            seq![FrameSpec { tick: first.tick, values: spec_adapt(strategies, plan, first.data) }]
                + spec_stream(strategies, plan, rate.spec_after(first.at), rest)
        } else {
            spec_stream(strategies, plan, rate.spec_after(first.at), rest)
        },
{
    let all = seq![first] + rest;
    assert(all[0] == first);
    assert(all.drop_first() =~= rest);
}

/// The arrival times of a sequence of arrivals.
pub open spec fn times_of(arrivals: Seq<Arrival>) -> Seq<u64> {
    arrivals.map_values(|a: Arrival| a.at)
}

/// The frames of a stream are the arrivals that pass the rate control: as
/// many as pass, so that what holds of the spacing of the packets that
/// pass holds of the decoded frames.
pub proof fn lemma_stream_follows_rate(
    strategies: Seq<StrategySpec>,
    plan: Seq<FieldSpec>,
    rate: RateControl,
    arrivals: Seq<Arrival>,
)
    ensures
        spec_stream(strategies, plan, rate, arrivals).len() == passed(rate, times_of(arrivals)).len(),
    decreases arrivals.len(),
{
    if arrivals.len() > 0 {
        let first = arrivals[0];
        assert(times_of(arrivals)[0] == first.at);
        assert(times_of(arrivals).drop_first() =~= times_of(arrivals.drop_first()));
        lemma_stream_follows_rate(strategies, plan, rate.spec_after(first.at), arrivals.drop_first());
    }
}

/// The ticks of a stream are ticks of the arrivals, in their order: a
/// subscriber sees no tick twice and none out of order that the source did
/// not send so.
pub proof fn lemma_stream_keeps_order(
    strategies: Seq<StrategySpec>,
    plan: Seq<FieldSpec>,
    rate: RateControl,
    arrivals: Seq<Arrival>,
)
    ensures
        spec_stream(strategies, plan, rate, arrivals).len() <= arrivals.len(),
        rate == RateControl::PassAll ==> spec_stream(strategies, plan, rate, arrivals).len()
            == arrivals.len() && forall|i: int|
            0 <= i < arrivals.len() ==> (#[trigger] spec_stream(
                strategies,
                plan,
                rate,
                arrivals,
            )[i]).tick == arrivals[i].tick,
    decreases arrivals.len(),
{
    if arrivals.len() > 0 {
        let first = arrivals[0];
        lemma_stream_keeps_order(strategies, plan, rate.spec_after(first.at), arrivals.drop_first());
        if rate == RateControl::PassAll {
            let rest = spec_stream(strategies, plan, rate, arrivals.drop_first());
            let out = spec_stream(strategies, plan, rate, arrivals);
            assert forall|i: int| 0 <= i < arrivals.len() implies (#[trigger] out[i]).tick
                == arrivals[i].tick by {
                if i > 0 {
                    assert(out[i] == rest[i - 1]);
                    assert(arrivals.drop_first()[i - 1] == arrivals[i]);
                }
            }
        }
    }
}

/// What a read of a broadcast buffer gave a subscriber.
#[derive(Debug)]
pub enum RecvOutcome<T> {
    /// The next item.
    Item(T),
    /// So many items were evicted before the subscriber read them.
    Lagged(u64),
    /// The buffer is closed and drained.
    Closed,
}

/// What a subscriber's stream does with a read.
#[derive(Debug)]
pub enum StreamStep<T> {
    /// Yield the item.
    Yield(T),
    /// Tell the subscriber that so many items were lost, and read again.
    Lagged(u64),
    /// End the stream.
    End,
}

/// What a subscriber has received and what it has lost by lagging.
#[derive(Debug, Clone, Copy, PartialEq, Eq, Structural)]
pub struct SubscriberStats {
    pub received: u64,
    pub lagged: u64,
}

/// How many items a sequence of reads yielded.
pub open spec fn items_in<T>(reads: Seq<RecvOutcome<T>>) -> nat
    decreases reads.len(),
{
    if reads.len() == 0 {
        0
    } else {
        items_in(reads.drop_last()) + match reads.last() {
            RecvOutcome::Item(_) => 1nat,
            _ => 0nat,
        }
    }
}

/// How many items a sequence of reads reported as skipped.
pub open spec fn skipped_in<T>(reads: Seq<RecvOutcome<T>>) -> nat
    decreases reads.len(),
{
    if reads.len() == 0 {
        0
    } else {
        skipped_in(reads.drop_last()) + match reads.last() {
            RecvOutcome::Lagged(n) => n as nat,
            _ => 0nat,
        }
    }
}

/// A count that stops at the largest number that fits.
pub open spec fn saturate(n: nat) -> u64 {
    if n > u64::MAX {
        u64::MAX
    } else {
        n as u64
    }
}

impl SubscriberStats {
    /// Stats of a subscriber that has read nothing.
    pub fn new() -> (r: Self)
        ensures
            r.received == 0,
            r.lagged == 0,
    {
        SubscriberStats { received: 0, lagged: 0 }
    }

    /// Takes the outcome of a read. An item is yielded and counted; a lag
    /// is handed on with exactly the reported number, which is added to the
    /// count of lost items, after which the stream goes on; a closed buffer
    /// ends the stream. The counts stop at the largest number that fits.
    pub fn on_recv<T>(&mut self, outcome: RecvOutcome<T>) -> (r: StreamStep<T>)
        ensures
            match outcome {
                RecvOutcome::Item(t) => {
                    &&& r == StreamStep::Yield(t)
                    &&& final(self).received == saturate((old(self).received + 1) as nat)
                    &&& final(self).lagged == old(self).lagged
                },
                RecvOutcome::Lagged(n) => {
                    &&& r == StreamStep::<T>::Lagged(n)
                    &&& final(self).received == old(self).received
                    &&& final(self).lagged == saturate((old(self).lagged + n) as nat)
                },
                RecvOutcome::Closed => r == StreamStep::<T>::End && *final(self) == *old(self),
            },
    {
        match outcome {
            RecvOutcome::Item(t) => {
                if self.received < u64::MAX {
                    self.received += 1;
                }
                StreamStep::Yield(t)
            },
            RecvOutcome::Lagged(n) => {
                if n > u64::MAX - self.lagged {
                    self.lagged = u64::MAX;
                } else {
                    self.lagged += n;
                }
                StreamStep::Lagged(n)
            },
            RecvOutcome::Closed => StreamStep::End,
        }
    }

    /// The stats after `items` more items and `lost` more lost items.
    pub open spec fn counted(self, items: nat, lost: nat) -> SubscriberStats {
        SubscriberStats {
            received: saturate((self.received + items) as nat),
            lagged: saturate((self.lagged + lost) as nat),
        }
    }

    /// The stats after a sequence of reads, from a fresh subscriber.
    pub open spec fn after<T>(reads: Seq<RecvOutcome<T>>) -> SubscriberStats {
        SubscriberStats { received: saturate(items_in(reads)), lagged: saturate(skipped_in(reads)) }
    }
}

/// The stats account for every read: one more read changes them as
/// `on_recv` does. A subscriber that is told of `n` missed items counts
/// exactly `n` more as lost and not one item more as received.
pub proof fn lemma_stats_follow_reads<T>(reads: Seq<RecvOutcome<T>>, next: RecvOutcome<T>)
    ensures
        ({
            let before = SubscriberStats::after(reads);
            let after = SubscriberStats::after(reads.push(next));
            match next {
                RecvOutcome::Item(_) => after.received == saturate((before.received + 1) as nat)
                    && after.lagged == before.lagged,
                RecvOutcome::Lagged(n) => after.received == before.received && after.lagged
                    == saturate((before.lagged + n) as nat),
                RecvOutcome::Closed => after == before,
            }
        }),
{
    assert(reads.push(next).drop_last() =~= reads);
}

} // verus!
