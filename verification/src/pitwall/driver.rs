//! The decisions of the driver's reader loop. The loop itself awaits the
//! provider and sleeps; what it does with each outcome of a read is decided
//! here: publish, fetch session metadata, back off, or stop.

use std::sync::Arc;
use vstd::arithmetic::power2::{lemma2_to64, pow2};
use vstd::prelude::*;

use super::session::SessionInfo;
use super::types::FramePacket;

verus! {

/// Capacity of the frame broadcast buffer (about 4.3 seconds at 60 Hz).
pub const FRAME_BUFFER_CAPACITY: usize = 256;

/// Capacity of the session broadcast buffer.
pub const SESSION_BUFFER_CAPACITY: usize = 16;

/// Number of consecutive provider errors at which the loop gives up.
pub const MAX_ERRORS: u32 = 10;

/// Base of the backoff after a provider error, in milliseconds.
pub const BACKOFF_BASE_MILLIS: u64 = 50;

/// Number of doublings after which the backoff grows no more.
pub const BACKOFF_MAX_DOUBLINGS: u32 = 5;

/// The longest backoff, in milliseconds: the base after all its doublings.
pub const BACKOFF_CAP_MILLIS: u64 = 1600;

/// Another handle to shared data. Calls `Arc::clone`, which gives a pointer
/// to the same allocation: the data behind it is that behind the argument.
#[verifier::external_body]
pub(crate) fn share<T>(a: &Arc<T>) -> (r: Arc<T>)
    ensures
        r == *a,
{
    Arc::clone(a)
}

/// The latest frame and the latest session metadata, for callers that read
/// without subscribing. The reader loop alone writes the frame, session
/// enrichment alone writes the session.
#[derive(Debug)]
pub struct SyncState {
    /// Most recently received frame.
    pub current_frame: Option<Arc<FramePacket>>,
    /// Most recently parsed session metadata.
    pub current_session: Option<Arc<SessionInfo>>,
}

impl SyncState {
    /// A state without values.
    pub fn new() -> (r: Self)
        ensures
            r.current_frame is None,
            r.current_session is None,
    {
        SyncState { current_frame: None, current_session: None }
    }

    /// The latest frame, if one has arrived.
    pub fn current_frame(&self) -> (r: Option<Arc<FramePacket>>)
        ensures
            r == self.current_frame,
    {
        match &self.current_frame {
            Some(f) => Some(share(f)),
            None => None,
        }
    }

    /// The latest session metadata, if any has been parsed.
    pub fn current_session(&self) -> (r: Option<Arc<SessionInfo>>)
        ensures
            r == self.current_session,
    {
        match &self.current_session {
            Some(s) => Some(share(s)),
            None => None,
        }
    }

    /// Takes the outcome of parsing session metadata. Parsed metadata
    /// replaces what was there and is handed back for publishing; a parse
    /// error leaves the state as it is and publishes nothing.
    pub fn enrich<E>(&mut self, parsed: Result<SessionInfo, E>) -> (r: Option<Arc<SessionInfo>>)
        ensures
            final(self).current_frame == old(self).current_frame,
            match parsed {
                Ok(info) => r == Some(Arc::new(info)) && final(self).current_session == r,
                Err(_) => r is None && final(self).current_session == old(self).current_session,
            },
    {
        match parsed {
            Ok(info) => {
                let session = Arc::new(info);
                self.current_session = Some(share(&session));
                Some(session)
            },
            Err(_) => None,
        }
    }
}

impl Default for SyncState {
    fn default() -> (r: Self)
        ensures
            r.current_frame is None,
            r.current_session is None,
    {
        SyncState::new()
    }
}

/// Why the reader loop ended.
#[derive(Debug, Clone, Copy, PartialEq, Eq, Structural)]
pub enum StopReason {
    /// The source came to its end.
    Graceful,
    /// Cancellation was signalled.
    Cancelled,
    /// Too many provider errors in a row.
    Fatal,
}

/// Where the reader loop stands.
#[derive(Debug, Clone, Copy, PartialEq, Eq, Structural)]
pub enum DriverStatus {
    /// Not yet started.
    Idle,
    /// Reading frames.
    Reading,
    /// Ended, for good.
    Stopped(StopReason),
}

/// What one read of the provider, raced against cancellation, gave.
#[derive(Debug)]
pub enum ReadOutcome {
    /// Cancellation won.
    Cancelled,
    /// The provider delivered a packet.
    Frame(FramePacket),
    /// The provider is at its end.
    EndOfStream,
    /// The provider failed.
    Error,
}

/// `ReadOutcome` as far as the decisions depend on it.
pub enum ReadEvent {
    Cancelled,
    Frame { tick: u32, session_version: u32 },
    EndOfStream,
    Error,
}

impl View for ReadOutcome {
    type V = ReadEvent;

    open spec fn view(&self) -> ReadEvent {
        match self {
            ReadOutcome::Cancelled => ReadEvent::Cancelled,
            ReadOutcome::Frame(p) => ReadEvent::Frame {
                tick: p.tick,
                session_version: p.session_version,
            },
            ReadOutcome::EndOfStream => ReadEvent::EndOfStream,
            ReadOutcome::Error => ReadEvent::Error,
        }
    }
}

/// What the loop has to do next.
#[derive(Debug)]
pub enum DriverAction {
    /// Publish the frame to all subscribers, without waiting for any. Where
    /// `session_fetch` holds a version, first ask the provider for that
    /// version's metadata text and hand it on to be parsed off the loop.
    Publish { frame: Arc<FramePacket>, session_fetch: Option<u32> },
    /// Sleep so long, then read again.
    Backoff { millis: u64 },
    /// End the loop; closing the channels tells every subscriber.
    Stop(StopReason),
    /// The loop had ended before: nothing to do.
    Halted,
}

/// `DriverAction` as far as the decisions determine it.
pub enum ActionSpec {
    Publish { tick: u32, session_version: u32, session_fetch: Option<u32> },
    Backoff { millis: u64 },
    Stop(StopReason),
    Halted,
}

impl View for DriverAction {
    type V = ActionSpec;

    open spec fn view(&self) -> ActionSpec {
        match self {
            DriverAction::Publish { frame, session_fetch } => ActionSpec::Publish {
                tick: frame.tick,
                session_version: frame.session_version,
                session_fetch: *session_fetch,
            },
            DriverAction::Backoff { millis } => ActionSpec::Backoff { millis: *millis },
            DriverAction::Stop(r) => ActionSpec::Stop(*r),
            DriverAction::Halted => ActionSpec::Halted,
        }
    }
}

/// The backoff after the `error_count`-th error in a row: the base after
/// the first error, doubled with every further error, but no more than
/// five times. So the loop sleeps 50, 100, 200, 400, 800 and then 1600
/// milliseconds.
pub open spec fn spec_backoff_millis(error_count: u32) -> u64 {
    let doublings: nat = if error_count == 0 {
        0
    } else if error_count - 1 < BACKOFF_MAX_DOUBLINGS {
        (error_count - 1) as nat
    } else {
        BACKOFF_MAX_DOUBLINGS as nat
    };
    (BACKOFF_BASE_MILLIS * pow2(doublings)) as u64
}

/// The backoff after the `error_count`-th error in a row, in milliseconds.
pub fn backoff_millis(error_count: u32) -> (r: u64)
    ensures
        r == spec_backoff_millis(error_count),
        BACKOFF_BASE_MILLIS <= r <= BACKOFF_CAP_MILLIS,
{
    proof {
        lemma2_to64();
    }
    if error_count <= 1 {
        50
    } else if error_count == 2 {
        100
    } else if error_count == 3 {
        200
    } else if error_count == 4 {
        400
    } else if error_count == 5 {
        800
    } else {
        1600
    }
}

/// The backoff starts at the base and doubles up to the cap: the first
/// error in a row is answered with the base, and every further error with
/// twice the backoff before it, or with the cap where that is less.
pub proof fn lemma_backoff_doubles(error_count: u32)
    requires
        1 <= error_count < u32::MAX,
    ensures
        spec_backoff_millis(1) == BACKOFF_BASE_MILLIS,
        spec_backoff_millis((error_count + 1) as u32) == if 2 * spec_backoff_millis(error_count)
            < BACKOFF_CAP_MILLIS {
            (2 * spec_backoff_millis(error_count)) as u64
        } else {
            BACKOFF_CAP_MILLIS
        },
{
    lemma2_to64();
}

/// The state of the reader loop as a mathematical value.
pub struct DriverModel {
    pub status: DriverStatus,
    pub frame_count: nat,
    pub error_count: nat,
    pub last_session_version: Option<u32>,
}

/// The state after an outcome, and what is to be done.
pub open spec fn spec_step(m: DriverModel, e: ReadEvent) -> (DriverModel, ActionSpec) {
    if m.status is Stopped {
        (m, ActionSpec::Halted)
    } else {
        match e {
            ReadEvent::Cancelled => (
                DriverModel { status: DriverStatus::Stopped(StopReason::Cancelled), ..m },
                ActionSpec::Stop(StopReason::Cancelled),
            ),
            ReadEvent::EndOfStream => (
                DriverModel { status: DriverStatus::Stopped(StopReason::Graceful), ..m },
                ActionSpec::Stop(StopReason::Graceful),
            ),
            ReadEvent::Frame { tick, session_version } => (
                DriverModel {
                    status: DriverStatus::Reading,
                    frame_count: m.frame_count + 1,
                    error_count: 0,
                    last_session_version: Some(session_version),
                },
                ActionSpec::Publish {
                    tick,
                    session_version,
                    session_fetch: if m.last_session_version != Some(session_version) {
                        Some(session_version)
                    } else {
                        None
                    },
                },
            ),
            ReadEvent::Error => {
                let errors = m.error_count + 1;
                if errors >= MAX_ERRORS {
                    (
                        DriverModel {
                            status: DriverStatus::Stopped(StopReason::Fatal),
                            error_count: errors,
                            ..m
                        },
                        ActionSpec::Stop(StopReason::Fatal),
                    )
                } else {
                    (
                        DriverModel { status: DriverStatus::Reading, error_count: errors, ..m },
                        ActionSpec::Backoff { millis: spec_backoff_millis(errors as u32) },
                    )
                }
            },
        }
    }
}

/// The state after a sequence of outcomes.
pub open spec fn spec_run(m: DriverModel, events: Seq<ReadEvent>) -> DriverModel
    decreases events.len(),
{
    if events.len() == 0 {
        m
    } else {
        spec_step(spec_run(m, events.drop_last()), events.last()).0
    }
}

/// The actions that a sequence of outcomes leads to, in order.
pub open spec fn spec_actions(m: DriverModel, events: Seq<ReadEvent>) -> Seq<ActionSpec>
    decreases events.len(),
{
    if events.len() == 0 {
        Seq::empty()
    } else {
        spec_actions(m, events.drop_last()).push(
            spec_step(spec_run(m, events.drop_last()), events.last()).1,
        )
    }
}

/// The ticks that a sequence of actions publishes, in order.
pub open spec fn published_ticks(actions: Seq<ActionSpec>) -> Seq<u32>
    decreases actions.len(),
{
    if actions.len() == 0 {
        Seq::empty()
    } else {
        match actions.last() {
            ActionSpec::Publish { tick, .. } => published_ticks(actions.drop_last()).push(tick),
            _ => published_ticks(actions.drop_last()),
        }
    }
}

/// The ticks of the frames among a sequence of outcomes, in order.
pub open spec fn frame_ticks(events: Seq<ReadEvent>) -> Seq<u32>
    decreases events.len(),
{
    if events.len() == 0 {
        Seq::empty()
    } else {
        match events.last() {
            ReadEvent::Frame { tick, .. } => frame_ticks(events.drop_last()).push(tick),
            _ => frame_ticks(events.drop_last()),
        }
    }
}

/// Whether an outcome ends a loop that has had `errors` errors in a row.
pub open spec fn ends_loop(e: ReadEvent, errors: nat) -> bool {
    match e {
        ReadEvent::Cancelled => true,
        ReadEvent::EndOfStream => true,
        ReadEvent::Frame { .. } => false,
        ReadEvent::Error => errors + 1 >= MAX_ERRORS,
    }
}

/// A sequence of `n` provider errors.
pub open spec fn errors(n: nat) -> Seq<ReadEvent> {
    Seq::new(n, |i: int| ReadEvent::Error)
}

/// The reader loop's state: it owns no provider and no channel, only what
/// its decisions depend on.
#[derive(Debug)]
pub struct Driver {
    pub status: DriverStatus,
    /// Frames read so far; it stops counting at the largest number.
    pub frame_count: u64,
    /// Provider errors since the last frame.
    pub error_count: u32,
    /// Session version of the last frame.
    pub last_session_version: Option<u32>,
}

impl View for Driver {
    type V = DriverModel;

    open spec fn view(&self) -> DriverModel {
        DriverModel {
            status: self.status,
            frame_count: self.frame_count as nat,
            error_count: self.error_count as nat,
            last_session_version: self.last_session_version,
        }
    }
}

/// The invariant of the loop's state: while it runs, fewer errors in a row
/// than make it stop.
pub open spec fn model_wf(m: DriverModel) -> bool {
    !(m.status is Stopped) ==> m.error_count < MAX_ERRORS
}

/// The frame count stops at the largest number that fits.
pub open spec fn capped(m: DriverModel) -> DriverModel {
    DriverModel {
        frame_count: if m.frame_count > u64::MAX {
            u64::MAX as nat
        } else {
            m.frame_count
        },
        ..m
    }
}

impl Driver {
    /// The invariant of a driver.
    pub open spec fn wf(&self) -> bool {
        model_wf(self@)
    }

    /// A driver that has not read yet.
    pub fn new() -> (r: Self)
        ensures
            r.wf(),
            r.status == DriverStatus::Idle,
            r.frame_count == 0,
            r.error_count == 0,
            r.last_session_version is None,
    {
        Driver {
            status: DriverStatus::Idle,
            frame_count: 0,
            error_count: 0,
            last_session_version: None,
        }
    }

    /// Whether the loop has ended.
    pub fn is_stopped(&self) -> (r: bool)
        ensures
            r == (self.status is Stopped),
    {
        match self.status {
            DriverStatus::Stopped(_) => true,
            _ => false,
        }
    }

    /// Takes the outcome of one read and decides what the loop does next.
    /// A frame is wrapped for sharing, becomes the current frame of `sync`,
    /// resets the error count, and is published; with it goes the request
    /// for session metadata where its session version is new. An error is
    /// counted and answered with a backoff, or with a fatal stop at the
    /// tenth in a row. The end of the stream and cancellation stop the loop.
    /// Once stopped, the driver stays as it is.
    pub fn step(&mut self, sync: &mut SyncState, outcome: ReadOutcome) -> (action: DriverAction)
        requires
            old(self).wf(),
        ensures
            final(self).wf(),
            final(self)@ == capped(spec_step(old(self)@, outcome@).0),
            action@ == spec_step(old(self)@, outcome@).1,
            final(sync).current_session == old(sync).current_session,
            match action {
                DriverAction::Publish { frame, .. } => outcome matches ReadOutcome::Frame(p)
                    && *frame == p && final(sync).current_frame == Some(frame),
                _ => final(sync).current_frame == old(sync).current_frame,
            },
    {
        if self.is_stopped() {
            return DriverAction::Halted;
        }
        match outcome {
            ReadOutcome::Cancelled => {
                self.status = DriverStatus::Stopped(StopReason::Cancelled);
                DriverAction::Stop(StopReason::Cancelled)
            },
            ReadOutcome::EndOfStream => {
                self.status = DriverStatus::Stopped(StopReason::Graceful);
                DriverAction::Stop(StopReason::Graceful)
            },
            ReadOutcome::Frame(packet) => {
                if self.frame_count < u64::MAX {
                    self.frame_count += 1;
                }
                self.error_count = 0;
                self.status = DriverStatus::Reading;
                let version = packet.session_version;
                let frame = Arc::new(packet);
                sync.current_frame = Some(share(&frame));
                let session_fetch = match self.last_session_version {
                    Some(last) if last == version => None,
                    _ => Some(version),
                };
                self.last_session_version = Some(version);
                DriverAction::Publish { frame, session_fetch }
            },
            ReadOutcome::Error => {
                self.error_count += 1;
                if self.error_count >= MAX_ERRORS {
                    self.status = DriverStatus::Stopped(StopReason::Fatal);
                    DriverAction::Stop(StopReason::Fatal)
                } else {
                    self.status = DriverStatus::Reading;
                    DriverAction::Backoff { millis: backoff_millis(self.error_count) }
                }
            },
        }
    }
}

/// A step keeps the invariant.
pub proof fn lemma_step_keeps_invariant(m: DriverModel, e: ReadEvent)
    requires
        model_wf(m),
    ensures
        model_wf(spec_step(m, e).0),
{
}

/// Terminal states are not re-entered: once stopped, every outcome leaves
/// the state as it is and asks for nothing.
pub proof fn lemma_stopped_stays(m: DriverModel, events: Seq<ReadEvent>)
    requires
        m.status is Stopped,
    ensures
        spec_run(m, events) == m,
        forall|i: int|
            0 <= i < events.len() ==> #[trigger] spec_actions(m, events)[i] == ActionSpec::Halted,
        spec_actions(m, events).len() == events.len(),
    decreases events.len(),
{
    if events.len() > 0 {
        lemma_stopped_stays(m, events.drop_last());
    }
}

/// Fewer errors in a row than the limit keep the loop reading, and each is
/// answered with a backoff.
pub proof fn lemma_errors_below_limit(m: DriverModel, n: nat)
    requires
        !(m.status is Stopped),
        m.error_count + n < MAX_ERRORS,
    ensures
        n > 0 ==> spec_run(m, errors(n)).status == DriverStatus::Reading,
        n == 0 ==> spec_run(m, errors(n)) == m,
        spec_run(m, errors(n)).error_count == m.error_count + n,
        spec_run(m, errors(n)).frame_count == m.frame_count,
        spec_run(m, errors(n)).last_session_version == m.last_session_version,
        spec_actions(m, errors(n)).len() == n,
        forall|i: int|
            0 <= i < n ==> #[trigger] spec_actions(m, errors(n))[i] == (ActionSpec::Backoff {
                millis: spec_backoff_millis((m.error_count + i + 1) as u32),
            }),
        published_ticks(spec_actions(m, errors(n))) == Seq::<u32>::empty(),
    decreases n,
{
    if n > 0 {
        let shorter = (n - 1) as nat;
        assert(errors(n).drop_last() =~= errors(shorter));
        lemma_errors_below_limit(m, shorter);
        assert(spec_actions(m, errors(n)).drop_last() =~= spec_actions(m, errors(shorter)));
    }
}

/// Sustained failure closes the stream: when the errors in a row reach the
/// limit, the loop stops fatally, for every subscriber at once.
pub proof fn lemma_errors_at_limit_stop(m: DriverModel, n: nat)
    requires
        !(m.status is Stopped),
        model_wf(m),
        m.error_count + n >= MAX_ERRORS,
    ensures
        spec_run(m, errors(n)).status == DriverStatus::Stopped(StopReason::Fatal),
    decreases n,
{
    let shorter = (n - 1) as nat;
    assert(errors(n).drop_last() =~= errors(shorter));
    if m.error_count + shorter >= MAX_ERRORS {
        lemma_errors_at_limit_stop(m, shorter);
    } else {
        lemma_errors_below_limit(m, shorter);
    }
}

/// Transient failure keeps the stream alive: after fewer errors in a row
/// than the limit, the next frame is published, the error count is back at
/// zero, and nothing but the failed reads is missing.
pub proof fn lemma_recovery_after_errors(m: DriverModel, n: nat, tick: u32, session_version: u32)
    requires
        !(m.status is Stopped),
        m.error_count + n < MAX_ERRORS,
    ensures
        ({
            let events = errors(n).push(ReadEvent::Frame { tick, session_version });
            &&& spec_run(m, events).status == DriverStatus::Reading
            &&& spec_run(m, events).error_count == 0
            &&& spec_actions(m, events).last() matches ActionSpec::Publish { tick: t, .. } && t
                == tick
            &&& published_ticks(spec_actions(m, events)) == seq![tick]
        }),
{
    let events = errors(n).push(ReadEvent::Frame { tick, session_version });
    assert(events.drop_last() =~= errors(n));
    lemma_errors_below_limit(m, n);
    assert(spec_actions(m, events).drop_last() =~= spec_actions(m, errors(n)));
    assert(Seq::<u32>::empty().push(tick) =~= seq![tick]);
}

/// Whether no outcome of the sequence ends the loop that starts in `m`.
pub open spec fn runs_through(m: DriverModel, events: Seq<ReadEvent>) -> bool {
    forall|i: int|
        0 <= i < events.len() ==> !ends_loop(
            #[trigger] events[i],
            spec_run(m, events.take(i)).error_count,
        )
}

/// While the loop runs, every frame that the provider delivers is
/// published, once and in the provider's order: the ticks of a subscriber's
/// stream are the ticks of the source.
pub proof fn lemma_publishes_every_frame(m: DriverModel, events: Seq<ReadEvent>)
    requires
        !(m.status is Stopped),
        runs_through(m, events),
    ensures
        !(spec_run(m, events).status is Stopped),
        published_ticks(spec_actions(m, events)) == frame_ticks(events),
    decreases events.len(),
{
    if events.len() > 0 {
        let shorter = events.drop_last();
        assert forall|i: int| 0 <= i < shorter.len() implies !ends_loop(
            #[trigger] shorter[i],
            spec_run(m, shorter.take(i)).error_count,
        ) by {
            assert(shorter[i] == events[i]);
            assert(shorter.take(i) =~= events.take(i));
        }
        lemma_publishes_every_frame(m, shorter);
        assert(events.take(events.len() - 1) =~= shorter);
        assert(!ends_loop(events[events.len() - 1], spec_run(m, shorter).error_count));
        assert(spec_actions(m, events).drop_last() =~= spec_actions(m, shorter));
    }
}

} // verus!
