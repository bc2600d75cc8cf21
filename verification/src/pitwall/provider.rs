//! The pacing of a replayed recording: how long a frame lasts at a playback
//! speed, and when the recording is at its end. Speeds are held in
//! thousandths, so that 1000 is real time.

use vstd::prelude::*;
use vstd::string::*;

use super::ibt::{
    can_open, spec_frame_bytes, spec_session_version, spec_text, spec_tick, spec_total_frames,
    Recording,
};
use super::types::{FramePacket, TelemetryError};

verus! {

/// The slowest playback: a tenth of real time.
pub const MIN_SPEED_PERMILLE: u32 = 100;

/// The fastest playback: a hundred times real time.
pub const MAX_SPEED_PERMILLE: u32 = 100_000;

/// Real time.
pub const REAL_TIME_PERMILLE: u32 = 1000;

/// Nanoseconds in a second, times the thousand of the speed's unit.
pub const NANOS_PER_SECOND_PERMILLE: u64 = 1_000_000_000_000;

/// The speed within the limits of playback.
pub open spec fn spec_clamp_speed(speed_permille: u32) -> u32 {
    if speed_permille < MIN_SPEED_PERMILLE {
        MIN_SPEED_PERMILLE
    } else if speed_permille > MAX_SPEED_PERMILLE {
        MAX_SPEED_PERMILLE
    } else {
        speed_permille
    }
}

/// Brings a speed within the limits of playback.
pub fn clamp_speed(speed_permille: u32) -> (r: u32)
    ensures
        r == spec_clamp_speed(speed_permille),
        MIN_SPEED_PERMILLE <= r <= MAX_SPEED_PERMILLE,
{
    if speed_permille < MIN_SPEED_PERMILLE {
        MIN_SPEED_PERMILLE
    } else if speed_permille > MAX_SPEED_PERMILLE {
        MAX_SPEED_PERMILLE
    } else {
        speed_permille
    }
}

/// The time between two frames of a recording of `tick_rate_hz` frames per
/// second, played at `speed_permille`: the native interval divided by the
/// speed, in whole nanoseconds.
pub open spec fn spec_frame_interval_nanos(tick_rate_hz: u32, speed_permille: u32) -> u64
    recommends
        tick_rate_hz > 0,
        speed_permille > 0,
{
    (NANOS_PER_SECOND_PERMILLE as int / (tick_rate_hz as int * speed_permille as int)) as u64
}

/// The time between two frames at a playback speed, in nanoseconds.
pub fn frame_interval_nanos(tick_rate_hz: u32, speed_permille: u32) -> (r: u64)
    requires
        tick_rate_hz > 0,
        speed_permille > 0,
    ensures
        r == spec_frame_interval_nanos(tick_rate_hz, speed_permille),
{
    let hz: u64 = tick_rate_hz as u64;
    let speed: u64 = speed_permille as u64;
    assert(hz * speed <= 0xffff_ffff * 0xffff_ffff) by (nonlinear_arith)
        requires
            hz <= 0xffff_ffff,
            speed <= 0xffff_ffff,
    ;
    assert(hz * speed > 0) by (nonlinear_arith)
        requires
            hz > 0,
            speed > 0,
    ;
    NANOS_PER_SECOND_PERMILLE / (hz * speed)
}

/// Where a replay stands in its recording, and how it is paced.
#[derive(Debug, Clone, Copy, PartialEq, Eq, Structural)]
pub struct ReplayPacing {
    /// Frames in the recording.
    pub total_frames: usize,
    /// Frames read so far.
    pub current_frame: usize,
    /// Frames per second of the recording.
    pub tick_rate_hz: u32,
    /// Playback speed in thousandths, within the limits, fixed for the
    /// life of the provider.
    pub speed_permille: u32,
}

impl ReplayPacing {
    /// The invariant of a pacing: a positive tick rate, a speed within
    /// the limits, and no more frames read than there are.
    pub open spec fn wf(&self) -> bool {
        &&& self.tick_rate_hz > 0
        &&& MIN_SPEED_PERMILLE <= self.speed_permille <= MAX_SPEED_PERMILLE
        &&& self.current_frame <= self.total_frames
    }

    /// The pacing of a recording from its start, at a speed that is
    /// brought within the limits.
    pub fn new(total_frames: usize, tick_rate_hz: u32, speed_permille: u32) -> (r: Self)
        requires
            tick_rate_hz > 0,
        ensures
            r.wf(),
            r.total_frames == total_frames,
            r.current_frame == 0,
            r.tick_rate_hz == tick_rate_hz,
            r.speed_permille == spec_clamp_speed(speed_permille),
    {
        ReplayPacing {
            total_frames,
            current_frame: 0,
            tick_rate_hz,
            speed_permille: clamp_speed(speed_permille),
        }
    }

    /// The playback speed in effect, in thousandths.
    pub fn speed(&self) -> (r: u32)
        ensures
            r == self.speed_permille,
    {
        self.speed_permille
    }

    /// Frames per second of the recording: the rate of the source.
    pub fn tick_rate(&self) -> (r: u32)
        ensures
            r == self.tick_rate_hz,
    {
        self.tick_rate_hz
    }

    /// The time to wait before each frame, in nanoseconds.
    pub fn interval_nanos(&self) -> (r: u64)
        requires
            self.wf(),
        ensures
            r == spec_frame_interval_nanos(self.tick_rate_hz, self.speed_permille),
    {
        frame_interval_nanos(self.tick_rate_hz, self.speed_permille)
    }

    /// The index of the frame to read next, or none at the end of the
    /// recording.
    pub fn next_frame(&mut self) -> (r: Option<usize>)
        requires
            old(self).wf(),
        ensures
            final(self).wf(),
            final(self).total_frames == old(self).total_frames,
            final(self).tick_rate_hz == old(self).tick_rate_hz,
            final(self).speed_permille == old(self).speed_permille,
            old(self).current_frame < old(self).total_frames ==> {
                &&& r == Some(old(self).current_frame)
                &&& final(self).current_frame == old(self).current_frame + 1
            },
            old(self).current_frame >= old(self).total_frames ==> {
                &&& r is None
                &&& final(self).current_frame == old(self).current_frame
            },
    {
        if self.current_frame >= self.total_frames {
            None
        } else {
            let index = self.current_frame;
            self.current_frame += 1;
            Some(index)
        }
    }
}

/// The time that a replay of `frames` frames waits in all, in nanoseconds.
pub open spec fn replay_nanos(frames: nat, tick_rate_hz: u32, speed_permille: u32) -> int {
    frames * spec_frame_interval_nanos(tick_rate_hz, speed_permille)
}

/// A recording of duration D, played at speed S, takes D/S: the time that
/// the replay waits, times the speed, is the duration of the recording, but
/// for less than a nanosecond per frame that the whole nanoseconds of the
/// interval fall short. Here both sides are multiplied by the tick rate
/// and the speed, so that nothing has to be divided: the duration of
/// `frames` frames is `frames / tick_rate_hz` seconds.
pub proof fn lemma_replay_duration(frames: nat, tick_rate_hz: u32, speed_permille: u32)
    requires
        tick_rate_hz > 0,
        speed_permille > 0,
    ensures
        ({
            let scale = tick_rate_hz as int * speed_permille as int;
            let waited = replay_nanos(frames, tick_rate_hz, speed_permille);
            &&& waited * scale <= frames * NANOS_PER_SECOND_PERMILLE
            &&& frames * NANOS_PER_SECOND_PERMILLE - waited * scale <= frames * (scale - 1)
        }),
{
    let scale = tick_rate_hz as int * speed_permille as int;
    let total = NANOS_PER_SECOND_PERMILLE as int;
    let interval = total / scale;
    assert(scale > 0) by (nonlinear_arith)
        requires
            scale == tick_rate_hz as int * speed_permille as int,
            tick_rate_hz > 0,
            speed_permille > 0,
    ;
    assert(0 <= interval <= total) by (nonlinear_arith)
        requires
            scale > 0,
            total >= 0,
            interval == total / scale,
    ;
    assert(spec_frame_interval_nanos(tick_rate_hz, speed_permille) == interval);
    assert(interval * scale <= total && total - interval * scale <= scale - 1)
        by (nonlinear_arith)
        requires
            scale > 0,
            interval == total / scale,
    ;
    let waited = frames * interval;
    assert(waited * scale <= frames * total && frames * total - waited * scale <= frames * (scale
        - 1)) by (nonlinear_arith)
        requires
            waited == frames * interval,
            interval * scale <= total,
            total - interval * scale <= scale - 1,
            frames >= 0,
    ;
}

/// A faster replay never takes longer: the interval does not grow with the speed.
pub proof fn lemma_faster_is_not_slower(tick_rate_hz: u32, slow: u32, fast: u32)
    requires
        tick_rate_hz > 0,
        0 < slow <= fast,
    ensures
        spec_frame_interval_nanos(tick_rate_hz, fast) <= spec_frame_interval_nanos(
            tick_rate_hz,
            slow,
        ),
{
    let a = tick_rate_hz as int * slow as int;
    let b = tick_rate_hz as int * fast as int;
    let total = NANOS_PER_SECOND_PERMILLE as int;
    assert(0 < a <= b) by (nonlinear_arith)
        requires
            a == tick_rate_hz as int * slow as int,
            b == tick_rate_hz as int * fast as int,
            tick_rate_hz > 0,
            0 < slow <= fast,
    ;
    vstd::arithmetic::div_mod::lemma_div_is_ordered_by_denominator(total, a, b);
    assert(0 <= total / b <= total / a <= total) by (nonlinear_arith)
        requires
            0 < a <= b,
            total >= 0,
            total / b <= total / a,
    ;
}

/// A provider that replays a recording: it hands out the packets of the
/// recording one by one, in order, and then reports the end of the
/// stream. When each packet is due is told by `interval_nanos`; waiting
/// for it is the caller's.
#[derive(Debug)]
pub struct ReplayProvider {
    pub recording: Recording,
    pub pacing: ReplayPacing,
}

impl ReplayProvider {
    /// The invariant of a replay: a sound recording, a sound pacing, and
    /// a pacing that counts the frames of the recording at its tick rate.
    pub open spec fn wf(&self) -> bool {
        &&& self.recording.wf()
        &&& self.pacing.wf()
        &&& self.pacing.total_frames == spec_total_frames(
            self.recording.header,
            self.recording.data@.len(),
        )
        &&& self.pacing.tick_rate_hz == self.recording.header.tick_rate
    }

    /// Opens the bytes of a recording for replay at a speed, in
    /// thousandths, which is brought within the limits. It fails where the
    /// recording cannot be opened.
    pub fn open(data: Vec<u8>, speed_permille: u32) -> (r: Result<ReplayProvider, TelemetryError>)
        ensures
            match r {
                Ok(p) => p.wf() && p.recording.data == data && p.pacing.current_frame == 0
                    && p.pacing.speed_permille == spec_clamp_speed(speed_permille),
                Err(TelemetryError::SourceOpen { .. }) => !can_open(data@),
                Err(_) => false,
            },
    {
        let recording = match Recording::open(data) {
            Ok(r) => r,
            Err(e) => {
                return Err(e);
            },
        };
        let pacing = ReplayPacing::new(
            recording.total_frames(),
            recording.tick_rate(),
            speed_permille,
        );
        Ok(ReplayProvider { recording, pacing })
    }

    /// Frames per second of the source.
    pub fn tick_rate(&self) -> (r: u32)
        ensures
            r == self.pacing.tick_rate_hz,
    {
        self.pacing.tick_rate()
    }

    /// Whether the replay has handed out its last packet.
    pub fn at_end(&self) -> (r: bool)
        ensures
            r == (self.pacing.current_frame >= self.pacing.total_frames),
    {
        self.pacing.current_frame >= self.pacing.total_frames
    }

    /// The next packet, or none at the end of the stream. The packets come
    /// in the order of the recording, each once: the packet of frame
    /// `current_frame`, whose tick is its index, carrying the schema of
    /// the recording.
    pub fn next_frame(&mut self) -> (r: Option<FramePacket>)
        requires
            old(self).wf(),
        ensures
            final(self).wf(),
            final(self).recording == old(self).recording,
            final(self).pacing.speed_permille == old(self).pacing.speed_permille,
            match r {
                Some(p) => {
                    &&& old(self).pacing.current_frame < old(self).pacing.total_frames
                    &&& final(self).pacing.current_frame == old(self).pacing.current_frame + 1
                    &&& p.tick == spec_tick(old(self).pacing.current_frame)
                    &&& p.data@ == spec_frame_bytes(
                        old(self).recording.data@,
                        old(self).recording.header,
                        old(self).pacing.current_frame as int,
                    )
                    &&& p.session_version == spec_session_version(old(self).recording.header)
                    &&& p.schema == old(self).recording.schema
                    &&& p.data@.len() == old(self).recording.schema.frame_size
                },
                None => {
                    &&& old(self).pacing.current_frame >= old(self).pacing.total_frames
                    &&& final(self).pacing == old(self).pacing
                },
            },
    {
        match self.pacing.next_frame() {
            Some(index) => self.recording.packet(index),
            None => None,
        }
    }

    /// The session metadata text of a session version. A recording holds
    /// one version of it, which is given whatever version is asked for;
    /// none where the recording holds no text.
    pub fn session_yaml(&self, version: u32) -> (r: Option<String>)
        requires
            self.wf(),
        ensures
            match r {
                Some(text) => text@.len() > 0 && text@ == spec_text(
                    self.recording.data@.subrange(
                        self.recording.header.session_info_offset as int,
                        self.recording.header.session_info_offset
                            + self.recording.header.session_info_len,
                    ),
                ),
                None => spec_text(
                    self.recording.data@.subrange(
                        self.recording.header.session_info_offset as int,
                        self.recording.header.session_info_offset
                            + self.recording.header.session_info_len,
                    ),
                ).len() == 0,
            },
    {
        let text = self.recording.session_yaml();
        if text.as_str().unicode_len() == 0 {
            None
        } else {
            Some(text)
        }
    }
}

} // verus!
