//! Rate control on a stream of packets: pass every packet, or let packets
//! through no closer together in time than an interval, dropping the rest.

use vstd::prelude::*;

use super::types::UpdateRate;

verus! {

/// Nanoseconds in a second.
pub const NANOS_PER_SECOND: u64 = 1_000_000_000;

/// The least spacing of packets at a cap of `hz` per second, in nanoseconds.
pub open spec fn spec_interval_nanos(hz: u32) -> u64
    recommends
        hz > 0,
{
    (NANOS_PER_SECOND as int / hz as int) as u64
}

/// The least spacing of packets at a cap of `hz` per second, in nanoseconds.
pub fn interval_nanos(hz: u32) -> (r: u64)
    requires
        hz > 0,
    ensures
        r == spec_interval_nanos(hz),
        r * hz <= NANOS_PER_SECOND,
{
    let r = NANOS_PER_SECOND / (hz as u64);
    assert(r * hz <= NANOS_PER_SECOND) by (nonlinear_arith)
        requires
            hz > 0,
            r == NANOS_PER_SECOND as int / hz as int,
    ;
    r
}

/// Whether a packet that arrives at `now` passes, when the last one passed at `last`.
pub open spec fn spec_passes(last: Option<u64>, interval: u64, now: u64) -> bool {
    match last {
        None => true,
        Some(t) => now >= t && now - t >= interval,
    }
}

/// Lets a packet through only when the interval has gone by since the last
/// one that it let through.
#[derive(Debug, Clone, Copy, PartialEq, Eq, Structural)]
pub struct Throttle {
    /// Least spacing, in nanoseconds.
    pub interval_nanos: u64,
    /// When the last packet passed, in nanoseconds of a monotonic clock.
    pub last_emit: Option<u64>,
}

impl Throttle {
    /// A throttle that has let nothing through yet.
    pub fn new(interval_nanos: u64) -> (r: Self)
        ensures
            r.interval_nanos == interval_nanos,
            r.last_emit is None,
    {
        Throttle { interval_nanos, last_emit: None }
    }

    /// Decides on a packet that arrives at `now_nanos`, and remembers the
    /// time if it passes.
    pub fn passes(&mut self, now_nanos: u64) -> (r: bool)
        ensures
            r == spec_passes(old(self).last_emit, old(self).interval_nanos, now_nanos),
            final(self).interval_nanos == old(self).interval_nanos,
            final(self).last_emit == if r {
                Some(now_nanos)
            } else {
                old(self).last_emit
            },
    {
        let pass = match self.last_emit {
            None => true,
            Some(t) => now_nanos >= t && now_nanos - t >= self.interval_nanos,
        };
        if pass {
            self.last_emit = Some(now_nanos);
        }
        pass
    }
}

/// The rate control of one subscription.
#[derive(Debug, Clone, Copy, PartialEq, Eq, Structural)]
pub enum RateControl {
    /// Every packet passes.
    PassAll,
    /// Packets pass through a throttle.
    Sampled(Throttle),
}

/// The rate control that a requested rate asks for on a source of `source_hz`.
pub open spec fn spec_rate_control(rate: UpdateRate, source_hz: u32) -> RateControl {
    match rate.spec_normalize(source_hz) {
        UpdateRate::Native => RateControl::PassAll,
        UpdateRate::Max(hz) => RateControl::Sampled(
            Throttle { interval_nanos: spec_interval_nanos(hz), last_emit: None },
        ),
    }
}

impl RateControl {
    /// The rate control that a requested rate asks for on a source of `source_hz`.
    pub fn for_rate(rate: UpdateRate, source_hz: u32) -> (r: Self)
        ensures
            r == spec_rate_control(rate, source_hz),
    {
        match rate.normalize(source_hz) {
            UpdateRate::Native => RateControl::PassAll,
            UpdateRate::Max(hz) => RateControl::Sampled(Throttle::new(interval_nanos(hz))),
        }
    }

    /// Whether a packet that arrives at `now` passes.
    pub open spec fn spec_passes(self, now: u64) -> bool {
        match self {
            RateControl::PassAll => true,
            RateControl::Sampled(t) => spec_passes(t.last_emit, t.interval_nanos, now),
        }
    }

    /// The rate control after a packet has arrived at `now`.
    pub open spec fn spec_after(self, now: u64) -> RateControl {
        match self {
            RateControl::PassAll => RateControl::PassAll,
            RateControl::Sampled(t) => if spec_passes(t.last_emit, t.interval_nanos, now) {
                RateControl::Sampled(Throttle { last_emit: Some(now), ..t })
            } else {
                self
            },
        }
    }

    /// Decides on a packet that arrives at `now_nanos`.
    pub fn passes(&mut self, now_nanos: u64) -> (r: bool)
        ensures
            r == old(self).spec_passes(now_nanos),
            *final(self) == old(self).spec_after(now_nanos),
    {
        match self {
            RateControl::PassAll => true,
            RateControl::Sampled(t) => {
                let mut throttle = *t;
                let pass = throttle.passes(now_nanos);
                *self = RateControl::Sampled(throttle);
                pass
            },
        }
    }
}

/// The arrival times, out of `times`, of the packets that a rate control
/// lets through, one after the other.
pub open spec fn passed(rate: RateControl, times: Seq<u64>) -> Seq<u64>
    decreases times.len(),
{
    if times.len() == 0 {
        Seq::empty()
    } else {
        let rest = passed(rate.spec_after(times[0]), times.drop_first());
        if rate.spec_passes(times[0]) {
            seq![times[0]] + rest
        } else {
            rest
        }
    }
}

/// Whether each element of a sequence of times is at least `interval`
/// after the one before it.
pub open spec fn spaced(times: Seq<u64>, interval: u64) -> bool {
    forall|k: int| 0 < k < times.len() ==> #[trigger] times[k] - times[k - 1] >= interval
}

/// Whatever the arrival times, two packets that pass a throttle one after
/// the other are at least the interval apart, and the first that passes is
/// at least the interval after the one that passed before.
pub proof fn lemma_min_spacing(throttle: Throttle, times: Seq<u64>)
    ensures
        spaced(passed(RateControl::Sampled(throttle), times), throttle.interval_nanos),
        passed(RateControl::Sampled(throttle), times).len() <= times.len(),
        passed(RateControl::Sampled(throttle), times).len() > 0 && throttle.last_emit is Some
            ==> passed(RateControl::Sampled(throttle), times)[0] - throttle.last_emit->Some_0
            >= throttle.interval_nanos,
    decreases times.len(),
{
    let rate = RateControl::Sampled(throttle);
    if times.len() > 0 {
        let first = times[0];
        let tail = times.drop_first();
        let out = passed(rate, times);
        if rate.spec_passes(first) {
            let next = Throttle { last_emit: Some(first), ..throttle };
            assert(rate.spec_after(first) == RateControl::Sampled(next));
            lemma_min_spacing(next, tail);
            let rest = passed(RateControl::Sampled(next), tail);
            assert(out == seq![first] + rest);
            assert forall|k: int| 0 < k < out.len() implies #[trigger] out[k] - out[k - 1]
                >= throttle.interval_nanos by {
                if k == 1 {
                    assert(out[0] == first);
                    assert(out[1] == rest[0]);
                } else {
                    assert(out[k] == rest[k - 1]);
                    assert(out[k - 1] == rest[k - 2]);
                    assert(rest[k - 1] - rest[k - 2] >= throttle.interval_nanos);
                }
            }
        } else {
            assert(rate.spec_after(first) == rate);
            lemma_min_spacing(throttle, tail);
        }
    }
}

/// Under a cap, the packets that pass span at least one interval for each
/// packet after the first: their average spacing is no less than the
/// interval.
pub proof fn lemma_average_spacing(throttle: Throttle, times: Seq<u64>)
    ensures
        passed(RateControl::Sampled(throttle), times).len() > 0 ==> passed(
            RateControl::Sampled(throttle),
            times,
        ).last() - passed(RateControl::Sampled(throttle), times)[0] >= (passed(
            RateControl::Sampled(throttle),
            times,
        ).len() - 1) * throttle.interval_nanos,
{
    let out = passed(RateControl::Sampled(throttle), times);
    lemma_min_spacing(throttle, times);
    if out.len() > 0 {
        lemma_span(out, throttle.interval_nanos, out.len() - 1);
    }
}

proof fn lemma_span(out: Seq<u64>, interval: u64, k: int)
    requires
        0 <= k < out.len(),
        spaced(out, interval),
    ensures
        out[k] - out[0] >= k * interval,
    decreases k,
{
    if k > 0 {
        lemma_span(out, interval, k - 1);
        assert(out[k] - out[k - 1] >= interval);
        assert(k * interval == (k - 1) * interval + interval) by (nonlinear_arith);
    } else {
        assert(k * interval == 0) by (nonlinear_arith)
            requires
                k == 0,
        ;
    }
}

/// A cap of `cap_hz` below the rate of the source puts a throttle on the
/// stream whose interval is a `cap_hz`-th of a second, short of it by less
/// than a nanosecond; so the packets that pass are spaced by no less.
pub proof fn lemma_cap_below_source_rate(cap_hz: u32, source_hz: u32, times: Seq<u64>)
    requires
        0 < cap_hz < source_hz,
    ensures
        ({
            let rate = spec_rate_control(UpdateRate::Max(cap_hz), source_hz);
            let interval = spec_interval_nanos(cap_hz);
            &&& rate == RateControl::Sampled(Throttle { interval_nanos: interval, last_emit: None })
            &&& interval * cap_hz <= NANOS_PER_SECOND < (interval + 1) * cap_hz
            &&& spaced(passed(rate, times), interval)
        }),
{
    let interval = spec_interval_nanos(cap_hz);
    assert(interval == NANOS_PER_SECOND as int / cap_hz as int);
    assert(interval * cap_hz <= NANOS_PER_SECOND < (interval + 1) * cap_hz) by (nonlinear_arith)
        requires
            cap_hz > 0,
            interval == NANOS_PER_SECOND as int / cap_hz as int,
    ;
    lemma_min_spacing(Throttle { interval_nanos: interval, last_emit: None }, times);
}

/// At the native rate every packet passes.
pub proof fn lemma_native_passes_every_packet(times: Seq<u64>)
    ensures
        passed(RateControl::PassAll, times) == times,
    decreases times.len(),
{
    if times.len() > 0 {
        lemma_native_passes_every_packet(times.drop_first());
        assert(seq![times[0]] + times.drop_first() =~= times);
    }
}

} // verus!
