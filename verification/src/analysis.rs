//! Finding the stretches of a lap in which something holds frame after
//! frame: braking zones, where the brake is on, and corners, where the
//! wheel is turned. What holds of a frame is decided by the caller; here a
//! lap is a sequence of yes and no.

use vstd::prelude::*;

verus! {

/// A stretch of frames, from the first to the last, both included.
#[derive(Debug, Clone, Copy, PartialEq, Eq, Structural)]
pub struct Zone {
    pub start_idx: usize,
    pub end_idx: usize,
}

/// What a scan of a lap has found: the zones that have ended, in order, and
/// the start of the zone under way, if there is one.
pub struct Scan {
    pub zones: Seq<Zone>,
    pub open: Option<int>,
}

/// The scan of a sequence of frames. A zone starts with the first frame
/// that holds after one that does not, and ends before the next frame that
/// does not hold.
pub open spec fn scan(flags: Seq<bool>) -> Scan
    decreases flags.len(),
{
    if flags.len() == 0 {
        Scan { zones: Seq::empty(), open: None }
    } else {
        let before = scan(flags.drop_last());
        let index = flags.len() - 1;
        match before.open {
            None => if flags.last() {
                Scan { zones: before.zones, open: Some(index) }
            } else {
                before
            },
            Some(start) => if flags.last() {
                before
            } else {
                Scan {
                    zones: before.zones.push(
                        Zone { start_idx: start as usize, end_idx: (index - 1) as usize },
                    ),
                    open: None,
                }
            },
        }
    }
}

/// All zones of a lap: those that ended, and the one that runs to the end
/// of the lap, if there is one.
pub open spec fn spec_zones(flags: Seq<bool>) -> Seq<Zone> {
    let found = scan(flags);
    match found.open {
        Some(start) => found.zones.push(
            Zone { start_idx: start as usize, end_idx: (flags.len() - 1) as usize },
        ),
        None => found.zones,
    }
}

/// Number of frames of a zone.
pub open spec fn zone_frames(z: Zone) -> int {
    z.end_idx - z.start_idx + 1
}

/// The zones of a lap that ended within it and have at least `min_frames` frames.
pub open spec fn spec_closed_zones(flags: Seq<bool>, min_frames: usize) -> Seq<Zone> {
    scan(flags).zones.filter(|z: Zone| zone_frames(z) >= min_frames)
}

/// Whether a zone is a stretch of frames that all hold and that cannot be
/// made longer at either end; `closed` says that a frame follows it.
pub open spec fn is_run(flags: Seq<bool>, z: Zone, closed: bool) -> bool {
    &&& z.start_idx <= z.end_idx < flags.len()
    &&& forall|k: int| z.start_idx <= k <= z.end_idx ==> #[trigger] flags[k]
    &&& z.start_idx > 0 ==> !flags[z.start_idx - 1]
    &&& closed ==> z.end_idx + 1 < flags.len() && !flags[z.end_idx + 1]
}

/// Follows a lap frame by frame and reports each zone when it has ended.
#[derive(Debug, Clone, Copy, PartialEq, Eq, Structural)]
pub struct ZoneDetector {
    /// Whether a zone is under way.
    pub active: bool,
    /// Where the zone under way started.
    pub start_idx: usize,
    /// The last frame of the zone under way.
    pub current_end_idx: usize,
}

impl ZoneDetector {
    /// A detector that has seen no frame.
    pub fn new() -> (r: Self)
        ensures
            !r.active,
            r.start_idx == 0,
            r.current_end_idx == 0,
    {
        ZoneDetector { active: false, start_idx: 0, current_end_idx: 0 }
    }

    /// Takes the frame at `index`. A frame that holds starts a zone or
    /// extends the one under way. A frame that does not hold ends the zone
    /// under way, which is returned: it lasted from its start to the last
    /// frame that held.
    pub fn process_frame(&mut self, holds: bool, index: usize) -> (r: Option<Zone>)
        ensures
            final(self).active == holds,
            holds && !old(self).active ==> final(self).start_idx == index,
            !(holds && !old(self).active) ==> final(self).start_idx == old(self).start_idx,
            holds ==> final(self).current_end_idx == index,
            !holds ==> final(self).current_end_idx == old(self).current_end_idx,
            r == if old(self).active && !holds {
                Some(
                    (Zone {
                        start_idx: old(self).start_idx,
                        end_idx: old(self).current_end_idx,
                    }),
                )
            } else {
                None
            },
    {
        if self.active {
            if holds {
                self.current_end_idx = index;
                None
            } else {
                self.active = false;
                Some(Zone { start_idx: self.start_idx, end_idx: self.current_end_idx })
            }
        } else {
            if holds {
                self.active = true;
                self.start_idx = index;
                self.current_end_idx = index;
            }
            None
        }
    }

    /// Ends the lap: a zone that is still under way is returned.
    pub fn finalize(&mut self) -> (r: Option<Zone>)
        ensures
            !final(self).active,
            final(self).start_idx == old(self).start_idx,
            final(self).current_end_idx == old(self).current_end_idx,
            r == if old(self).active {
                Some(
                    (Zone {
                        start_idx: old(self).start_idx,
                        end_idx: old(self).current_end_idx,
                    }),
                )
            } else {
                None
            },
    {
        if self.active {
            self.active = false;
            Some(Zone { start_idx: self.start_idx, end_idx: self.current_end_idx })
        } else {
            None
        }
    }

    /// Forgets everything, for a new lap.
    pub fn reset(&mut self)
        ensures
            !final(self).active,
            final(self).start_idx == 0,
            final(self).current_end_idx == 0,
    {
        self.active = false;
        self.start_idx = 0;
        self.current_end_idx = 0;
    }

    /// Whether the detector stands where a scan of the frames seen so far stands.
    pub open spec fn follows(&self, flags: Seq<bool>) -> bool {
        match scan(flags).open {
            Some(start) => self.active && self.start_idx == start && self.current_end_idx
                == flags.len() - 1,
            None => !self.active,
        }
    }
}

impl Default for ZoneDetector {
    fn default() -> (r: Self)
        ensures
            !r.active,
            r.start_idx == 0,
            r.current_end_idx == 0,
    {
        ZoneDetector::new()
    }
}

/// The zone under way starts within the frames seen.
pub proof fn lemma_open_in_range(flags: Seq<bool>)
    ensures
        scan(flags).open matches Some(start) ==> 0 <= start < flags.len(),
    decreases flags.len(),
{
    if flags.len() > 0 {
        lemma_open_in_range(flags.drop_last());
    }
}

/// Finds all zones of a lap, the one at its end included.
pub fn extract_zones(flags: &Vec<bool>) -> (r: Vec<Zone>)
    ensures
        r@ == spec_zones(flags@),
{
    let mut zones: Vec<Zone> = Vec::new();
    let mut detector = ZoneDetector::new();
    let mut i: usize = 0;
    while i < flags.len()
        invariant
            i <= flags@.len(),
            zones@ == scan(flags@.take(i as int)).zones,
            detector.follows(flags@.take(i as int)),
        decreases flags@.len() - i,
    {
        proof {
            assert(flags@.take(i + 1).drop_last() =~= flags@.take(i as int));
            assert(flags@.take(i + 1).last() == flags@[i as int]);
            lemma_open_in_range(flags@.take(i as int));
        }
        if let Some(zone) = detector.process_frame(flags[i], i) {
            zones.push(zone);
        }
        i += 1;
    }
    proof {
        assert(flags@.take(flags@.len() as int) =~= flags@);
        lemma_open_in_range(flags@);
    }
    if let Some(zone) = detector.finalize() {
        zones.push(zone);
    }
    zones
}

/// Finds the zones of a lap that end within it and have at least
/// `min_frames` frames. A zone that runs to the end of the lap is left out.
pub fn closed_zones(flags: &Vec<bool>, min_frames: usize) -> (r: Vec<Zone>)
    ensures
        r@ == spec_closed_zones(flags@, min_frames),
{
    let mut zones: Vec<Zone> = Vec::new();
    let mut detector = ZoneDetector::new();
    let mut i: usize = 0;
    let ghost long_enough = |z: Zone| zone_frames(z) >= min_frames;
    assert(Seq::<Zone>::empty().filter(long_enough) =~= Seq::<Zone>::empty()) by {
        reveal(Seq::filter);
    }
    while i < flags.len()
        invariant
            i <= flags@.len(),
            long_enough == |z: Zone| zone_frames(z) >= min_frames,
            zones@ == scan(flags@.take(i as int)).zones.filter(long_enough),
            detector.follows(flags@.take(i as int)),
        decreases flags@.len() - i,
    {
        proof {
            assert(flags@.take(i + 1).drop_last() =~= flags@.take(i as int));
            assert(flags@.take(i + 1).last() == flags@[i as int]);
            lemma_open_in_range(flags@.take(i as int));
        }
        let ghost before = scan(flags@.take(i as int)).zones;
        if let Some(zone) = detector.process_frame(flags[i], i) {
            proof {
                assert(before.push(zone).drop_last() =~= before);
                reveal(Seq::filter);
            }
            if zone.end_idx - zone.start_idx + 1 >= min_frames {
                zones.push(zone);
            }
        }
        i += 1;
    }
    assert(flags@.take(flags@.len() as int) =~= flags@);
    zones
}

/// Number of frames that hold among those from `start` up to, not
/// including, `end`.
pub open spec fn spec_count(flags: Seq<bool>, start: int, end: int) -> nat
    decreases end - start,
{
    if start >= end {
        0
    } else {
        spec_count(flags, start, end - 1) + if flags[end - 1] {
            1nat
        } else {
            0nat
        }
    }
}

/// Counts the frames that hold among those from `start` up to, not including, `end`.
pub fn count_active(flags: &Vec<bool>, start: usize, end: usize) -> (r: usize)
    requires
        start <= end <= flags@.len(),
    ensures
        r == spec_count(flags@, start as int, end as int),
        r <= end - start,
{
    let mut count: usize = 0;
    let mut i: usize = start;
    while i < end
        invariant
            start <= i <= end <= flags@.len(),
            count == spec_count(flags@, start as int, i as int),
            count <= i - start,
        decreases end - i,
    {
        if flags[i] {
            count += 1;
        }
        i += 1;
    }
    count
}

/// The first frame that holds among those from `from` up to, not including, `to`.
pub fn first_active(flags: &Vec<bool>, from: usize, to: usize) -> (r: Option<usize>)
    requires
        from <= to <= flags@.len(),
    ensures
        match r {
            Some(i) => from <= i < to && flags@[i as int] && forall|k: int|
                from <= k < i ==> !flags@[k],
            None => forall|k: int| from <= k < to ==> !flags@[k],
        },
{
    let mut i: usize = from;
    while i < to
        invariant
            from <= i <= to <= flags@.len(),
            forall|k: int| from <= k < i ==> !flags@[k],
        decreases to - i,
    {
        if flags[i] {
            return Some(i);
        }
        i += 1;
    }
    None
}

/// Frames over which the first deceleration of a braking zone is sampled.
pub const DECEL_SAMPLE_FRAMES: usize = 5;

/// The last frame of the sample that starts at `start_idx` in a lap of
/// `len` frames: the fifth frame, or the last of the lap if that comes
/// earlier; none where fewer than two frames are left.
pub fn sample_end(len: usize, start_idx: usize) -> (r: Option<usize>)
    requires
        start_idx <= len,
    ensures
        match r {
            Some(e) => len - start_idx >= 2 && e == if len - start_idx < DECEL_SAMPLE_FRAMES {
                len - 1
            } else {
                start_idx + DECEL_SAMPLE_FRAMES - 1
            },
            None => len - start_idx < 2,
        },
{
    let left = len - start_idx;
    let sample = if left < DECEL_SAMPLE_FRAMES {
        left
    } else {
        DECEL_SAMPLE_FRAMES
    };
    if sample < 2 {
        None
    } else {
        Some(start_idx + sample - 1)
    }
}

/// What a scan has found so far: every zone is a stretch of frames that
/// all hold, with a frame that does not hold before it, unless it starts
/// the lap, and one after it; the zones come in order and do not touch;
/// and the zone under way, if there is one, reaches from its start to the
/// last frame, after all zones that ended.
pub open spec fn scan_is_sound(flags: Seq<bool>) -> bool {
    let found = scan(flags);
    &&& forall|j: int| 0 <= j < found.zones.len() ==> is_run(flags, #[trigger] found.zones[j], true)
    &&& forall|j: int, k: int|
        0 <= j < k < found.zones.len() ==> (#[trigger] found.zones[j]).end_idx + 1 < (
        #[trigger] found.zones[k]).start_idx
    &&& match found.open {
        Some(start) => {
            &&& 0 <= start < flags.len()
            &&& forall|k: int| start <= k < flags.len() ==> #[trigger] flags[k]
            &&& start > 0 ==> !flags[start - 1]
            &&& forall|j: int|
                0 <= j < found.zones.len() ==> (#[trigger] found.zones[j]).end_idx + 1 < start
        },
        None => flags.len() > 0 ==> !flags.last(),
    }
}

/// A scan finds the stretches of frames that hold, and nothing else.
pub proof fn lemma_zones_are_runs(flags: Seq<bool>)
    requires
        flags.len() <= usize::MAX,
    ensures
        scan_is_sound(flags),
    decreases flags.len(),
{
    if flags.len() > 0 {
        let shorter = flags.drop_last();
        lemma_zones_are_runs(shorter);
        let before = scan(shorter);
        let now = scan(flags);
        let last = flags.len() - 1;
        assert forall|k: int| 0 <= k < shorter.len() implies shorter[k] == flags[k] by {}
        assert forall|j: int| 0 <= j < before.zones.len() implies is_run(
            flags,
            #[trigger] before.zones[j],
            true,
        ) by {
            let z = before.zones[j];
            assert(is_run(shorter, z, true));
            assert forall|k: int| z.start_idx <= k <= z.end_idx implies #[trigger] flags[k] by {
                assert(shorter[k]);
            }
        }
        match before.open {
            Some(start) => {
                if !flags.last() {
                    let z = Zone { start_idx: start as usize, end_idx: (last - 1) as usize };
                    assert(now.zones == before.zones.push(z));
                    assert(z.start_idx == start && z.end_idx == last - 1);
                    assert forall|k: int| z.start_idx <= k <= z.end_idx implies #[trigger] flags[k] by {
                        assert(shorter[k]);
                    }
                    assert(is_run(flags, z, true));
                    assert forall|j: int| 0 <= j < now.zones.len() implies is_run(
                        flags,
                        #[trigger] now.zones[j],
                        true,
                    ) by {
                        if j < before.zones.len() {
                            assert(now.zones[j] == before.zones[j]);
                        }
                    }
                    assert forall|j: int, k: int| 0 <= j < k < now.zones.len() implies (
                    #[trigger] now.zones[j]).end_idx + 1 < (#[trigger] now.zones[k]).start_idx by {
                        assert(now.zones[j] == before.zones[j]);
                        if k < before.zones.len() {
                            assert(now.zones[k] == before.zones[k]);
                        }
                    }
                } else {
                    assert(now == before);
                    assert forall|k: int| start <= k < flags.len() implies #[trigger] flags[k] by {
                        if k < shorter.len() {
                            assert(shorter[k]);
                        }
                    }
                }
            },
            None => {
                if flags.last() {
                    assert(now.zones == before.zones);
                    assert(now.open == Some(last));
                    if shorter.len() > 0 {
                        assert(!shorter.last());
                    }
                    assert forall|j: int| 0 <= j < now.zones.len() implies (
                    #[trigger] now.zones[j]).end_idx + 1 < last by {
                        assert(is_run(shorter, before.zones[j], true));
                    }
                } else {
                    assert(now == before);
                }
            },
        }
    }
}

} // verus!
