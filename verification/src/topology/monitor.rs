//! The integer decisions of a jack monitor: how the contacts are driven and which one is read
//! for every kind of reading, which reading comes next while a potentiometer or a two-terminal
//! element is followed, the order the rails are averaged in, and which arm an end stop takes
//! as the wiper.

use vstd::prelude::*;

use super::{
    spec_track_ends, track_ends, Drive, JackMode, ARM_COUNT, CONTACT_COUNT, RING, SLEEVE, TIP,
    TIP_SWITCH,
};

verus! {

/// Which tap a tracked potentiometer's next reading is taken from.
#[derive(Clone, Copy, Debug, PartialEq, Eq, Structural)]
pub enum TrackRead {
    Wiper,
    LowEnd,
    HighEnd,
}

/// Which reading a followed tip-sleeve element takes next.
#[derive(Clone, Copy, Debug, PartialEq, Eq, Structural)]
pub enum ElementRead {
    Tip,
    Ring,
    PlugCheck,
}

/// Every contact floating except `high` driven high and `low` driven low.
pub open spec fn spec_pair_drives(high: int, low: int) -> Seq<Drive> {
    Seq::new(
        CONTACT_COUNT as nat,
        |contact: int|
            if contact == high {
                Drive::High
            } else if contact == low {
                Drive::Low
            } else {
                Drive::Floating
            },
    )
}

/// Drives for measuring a rail: every arm at `level`, the tip switch floating, so no current
/// flows and every arm's tap reads its own rail.
pub fn rail_drives(level: Drive) -> (r: [Drive; CONTACT_COUNT])
    ensures
        forall|arm: int| 0 <= arm < ARM_COUNT ==> r@[arm] == level,
        r@[TIP_SWITCH as int] == Drive::Floating,
{
    let mut drives = [level; CONTACT_COUNT];
    drives[TIP_SWITCH] = Drive::Floating;
    drives
}

/// Drives for a plug check: the tip pulled low and the tip switch high, the rest floating.
/// Without a plug the tip switch touches the tip and the two pulls halve the rails; with one
/// it is isolated and reads its own rail.
pub fn plug_check_drives() -> (r: [Drive; CONTACT_COUNT])
    ensures
        r@ == spec_pair_drives(TIP_SWITCH as int, TIP as int),
{
    let mut drives = [Drive::Floating; CONTACT_COUNT];
    drives[TIP] = Drive::Low;
    drives[TIP_SWITCH] = Drive::High;
    assert(drives@ =~= spec_pair_drives(TIP_SWITCH as int, TIP as int));
    drives
}

/// Drives for a pair: `high` to the high rail, `low` to the low rail, everything else
/// floating.
pub fn pair_drives(high: usize, low: usize) -> (r: [Drive; CONTACT_COUNT])
    requires
        high < CONTACT_COUNT,
        low < CONTACT_COUNT,
        high != low,
    ensures
        r@ == spec_pair_drives(high as int, low as int),
{
    let mut drives = [Drive::Floating; CONTACT_COUNT];
    drives[high] = Drive::High;
    drives[low] = Drive::Low;
    assert(drives@ =~= spec_pair_drives(high as int, low as int));
    drives
}

/// Position of a rail reading in the order the rails are averaged: every arm at the high
/// rail, then every arm at the low one.
pub open spec fn rail_step(level: Drive, arm: usize) -> int {
    (if level == Drive::High { 0 } else { ARM_COUNT as int }) + arm
}

/// The rail reading after the one of `arm` at `level`, `None` after the last.
pub fn next_rail(level: Drive, arm: usize) -> (r: Option<(Drive, usize)>)
    requires
        level == Drive::High || level == Drive::Low,
        arm < ARM_COUNT,
    ensures
        rail_step(level, arm) + 1 < 2 * ARM_COUNT <==> r is Some,
        r matches Some((next_level, next_arm)) ==> {
            &&& next_level == Drive::High || next_level == Drive::Low
            &&& next_arm < ARM_COUNT
            &&& rail_step(next_level, next_arm) == rail_step(level, arm) + 1
        },
{
    if arm + 1 < ARM_COUNT {
        Some((level, arm + 1))
    } else if level == Drive::High {
        Some((Drive::Low, 0))
    } else {
        None
    }
}

/// Whether rails measured at `measured_at` (`None` if never) are too old for a solve due at
/// `due_at`.
pub fn rails_stale(measured_at: Option<u64>, due_at: u64, refresh_interval: u64) -> (r: bool)
    ensures
        r == match measured_at {
            None => true,
            Some(at) => due_at - at > refresh_interval,
        },
{
    match measured_at {
        None => true,
        Some(at) => due_at > at && due_at - at > refresh_interval,
    }
}

/// The wiper taken at an end stop that leaves `candidates` for it: the one set for the jack,
/// else the one last seen in it, else the tip, else the ring - the first of these that is a
/// candidate at all - and otherwise the candidate closer to the star point.
pub open spec fn spec_end_stop_wiper(
    candidates: [usize; 2],
    preferred: Option<usize>,
    remembered: Option<usize>,
) -> usize {
    let candidate = |arm: usize| arm == candidates[0] || arm == candidates[1];
    if preferred matches Some(arm) && candidate(arm) {
        preferred.unwrap()
    } else if remembered matches Some(arm) && candidate(arm) {
        remembered.unwrap()
    } else if candidate(TIP) {
        TIP
    } else if candidate(RING) {
        RING
    } else {
        candidates[0]
    }
}

/// The wiper taken at an end stop; see [`spec_end_stop_wiper`].
pub fn end_stop_wiper(
    candidates: [usize; 2],
    preferred: Option<usize>,
    remembered: Option<usize>,
) -> (r: usize)
    ensures
        r == spec_end_stop_wiper(candidates, preferred, remembered),
        r == candidates[0] || r == candidates[1],
{
    let choices = [preferred, remembered, Some(TIP), Some(RING)];
    let mut i: usize = 0;
    while i < 4
        invariant
            i <= 4,
            choices@ == seq![preferred, remembered, Some(TIP), Some(RING)],
            forall|j: int|
                0 <= j < i ==> !(#[trigger] choices@[j] matches Some(arm) && (arm == candidates[0]
                    || arm == candidates[1])),
        decreases 4 - i,
    {
        if let Some(arm) = choices[i] {
            if arm == candidates[0] || arm == candidates[1] {
                return arm;
            }
        }
        i += 1;
    }
    candidates[0]
}

/// At an end stop the wiper setting wins whenever it names one of the two candidates, then
/// the wiper remembered for the jack; failing both, the tip is taken whenever it is a
/// candidate, the ring only when the tip is not, and otherwise the candidate closer to the
/// star point.
pub proof fn lemma_end_stop_wiper_priority(
    candidates: [usize; 2],
    preferred: Option<usize>,
    remembered: Option<usize>,
)
    ensures
        ({
            let wiper = spec_end_stop_wiper(candidates, preferred, remembered);
            let candidate = |arm: usize| arm == candidates[0] || arm == candidates[1];
            let preferred_fits = preferred matches Some(arm) && candidate(arm);
            let remembered_fits = remembered matches Some(arm) && candidate(arm);
            &&& candidate(wiper)
            &&& preferred_fits ==> Some(wiper) == preferred
            &&& !preferred_fits && remembered_fits ==> Some(wiper) == remembered
            &&& !preferred_fits && !remembered_fits && candidate(TIP) ==> wiper == TIP
            &&& !preferred_fits && !remembered_fits && !candidate(TIP) && candidate(RING) ==> wiper
                == RING
            &&& !preferred_fits && !remembered_fits && !candidate(TIP) && !candidate(RING)
                ==> wiper == candidates[0]
        }),
{
}

/// The wiper a potentiometer position is read with at an end stop: `preferred` if it is one
/// of the candidates, otherwise the candidate closer to the star point.
pub fn hinted_wiper(candidates: [usize; 2], preferred: Option<usize>) -> (r: usize)
    ensures
        r == match preferred {
            Some(arm) if arm == candidates[0] || arm == candidates[1] => arm,
            _ => candidates[0],
        },
{
    match preferred {
        Some(arm) if arm == candidates[0] || arm == candidates[1] => arm,
        _ => candidates[0],
    }
}

/// Whether an end stop shorts ring and sleeve: a ring wiper on the sleeve end and a sleeve
/// wiper on the ring end read alike there, at opposite positions, and a rheostat behind a
/// mono plug reads the same way until it moves.
pub fn ring_sleeve_end_stop(candidates: [usize; 2]) -> (r: bool)
    ensures
        r == ((candidates[0] == RING || candidates[1] == RING) && (candidates[0] == SLEEVE
            || candidates[1] == SLEEVE)),
{
    (candidates[0] == RING || candidates[1] == RING) && (candidates[0] == SLEEVE || candidates[1]
        == SLEEVE)
}

/// The integer state of following a potentiometer: its roles, which tap is read next, and
/// when a track end is due again.
#[derive(Clone, Copy, Debug)]
pub struct TrackSchedule {
    pub wiper: usize,
    pub low_end: usize,
    pub high_end: usize,
    pub next: TrackRead,
    pub next_end_read_at: u64,
    pub next_end_is_high: bool,
}

impl TrackSchedule {
    /// Starts following a potentiometer with `wiper`: the track's start driven low and its
    /// other end high, the high end read first.
    pub fn new(wiper: usize, now: u64, end_tap_interval: u64) -> (r: Self)
        requires
            wiper < ARM_COUNT,
            now + end_tap_interval <= u64::MAX,
        ensures
            r.wiper == wiper,
            (r.low_end, r.high_end) == spec_track_ends(wiper),
            r.next == TrackRead::HighEnd,
            r.next_end_read_at == now + end_tap_interval,
            !r.next_end_is_high,
    {
        let (low_end, high_end) = track_ends(wiper);
        TrackSchedule {
            wiper,
            low_end,
            high_end,
            next: TrackRead::HighEnd,
            next_end_read_at: now + end_tap_interval,
            next_end_is_high: false,
        }
    }

    /// The roles are three different arms.
    pub open spec fn valid(self) -> bool {
        &&& self.wiper < ARM_COUNT && self.low_end < ARM_COUNT && self.high_end < ARM_COUNT
        &&& self.wiper != self.low_end && self.wiper != self.high_end && self.low_end
            != self.high_end
    }

    /// The contact the next reading takes.
    pub open spec fn spec_contact(self) -> usize {
        match self.next {
            TrackRead::Wiper => self.wiper,
            TrackRead::LowEnd => self.low_end,
            TrackRead::HighEnd => self.high_end,
        }
    }

    /// The drives and contact of the next reading: the track's ends driven, one tap read.
    pub fn reading(&self) -> (r: ([Drive; CONTACT_COUNT], usize))
        requires
            self.valid(),
        ensures
            r.0@ == spec_pair_drives(self.high_end as int, self.low_end as int),
            r.1 == self.spec_contact(),
    {
        let drives = pair_drives(self.high_end, self.low_end);
        let contact = match self.next {
            TrackRead::Wiper => self.wiper,
            TrackRead::LowEnd => self.low_end,
            TrackRead::HighEnd => self.high_end,
        };
        (drives, contact)
    }

    /// Picks the next reading once the last one was accepted: an end that has not been read
    /// yet, since the wiper is only meaningful against both; then the wiper, except that every
    /// `end_tap_interval` one end is checked again, the two ends taking turns.
    pub fn advance(&mut self, low_read: bool, high_read: bool, now: u64, end_tap_interval: u64)
        requires
            now + end_tap_interval <= u64::MAX,
        ensures
            final(self).wiper == old(self).wiper,
            final(self).low_end == old(self).low_end,
            final(self).high_end == old(self).high_end,
            !high_read ==> final(self).next == TrackRead::HighEnd,
            high_read && !low_read ==> final(self).next == TrackRead::LowEnd,
            high_read && low_read && now < old(self).next_end_read_at ==> {
                &&& final(self).next == TrackRead::Wiper
                &&& final(self).next_end_read_at == old(self).next_end_read_at
                &&& final(self).next_end_is_high == old(self).next_end_is_high
            },
            high_read && low_read && now >= old(self).next_end_read_at ==> {
                &&& final(self).next_end_is_high == !old(self).next_end_is_high
                &&& final(self).next == if final(self).next_end_is_high {
                    TrackRead::HighEnd
                } else {
                    TrackRead::LowEnd
                }
                &&& final(self).next_end_read_at == now + end_tap_interval
            },
            !(high_read && low_read) ==> final(self).next_end_read_at == old(self).next_end_read_at
                && final(self).next_end_is_high == old(self).next_end_is_high,
    {
        if !high_read {
            self.next = TrackRead::HighEnd;
        } else if !low_read {
            self.next = TrackRead::LowEnd;
        } else if now >= self.next_end_read_at {
            self.next_end_read_at = now + end_tap_interval;
            self.next_end_is_high = !self.next_end_is_high;
            self.next = if self.next_end_is_high {
                TrackRead::HighEnd
            } else {
                TrackRead::LowEnd
            };
        } else {
            self.next = TrackRead::Wiper;
        }
    }
}

/// The integer state of following whatever connects tip and sleeve: the tip driven high, the
/// sleeve low, with plug checks, ring checks and (while nothing conducts) full solves
/// interleaved on their own intervals.
#[derive(Clone, Copy, Debug)]
pub struct TwoTerminalSchedule {
    /// A mono plug shorts the ring to the sleeve, which every ring check confirms.
    pub ring_shorted: bool,
    /// Nothing is known to connect: the first conduction sends the jack to be identified.
    pub open: bool,
    pub next: ElementRead,
    pub next_plug_check_at: u64,
    pub next_ring_check_at: u64,
    pub next_solve_at: u64,
    /// The last ring check disagreed with the sleeve. The element may just have switched
    /// between that check and the tip reading before it, so a fresh pair has to confirm it.
    pub ring_mismatch: bool,
}

impl TwoTerminalSchedule {
    pub fn new(
        ring_shorted: bool,
        open: bool,
        now: u64,
        empty_poll_interval: u64,
        ring_check_interval: u64,
        open_solve_interval: u64,
    ) -> (r: Self)
        requires
            now + empty_poll_interval <= u64::MAX,
            now + ring_check_interval <= u64::MAX,
            now + open_solve_interval <= u64::MAX,
        ensures
            r.ring_shorted == ring_shorted,
            r.open == open,
            r.next == ElementRead::Tip,
            r.next_plug_check_at == now + empty_poll_interval,
            r.next_ring_check_at == now + ring_check_interval,
            r.next_solve_at == now + open_solve_interval,
            !r.ring_mismatch,
    {
        TwoTerminalSchedule {
            ring_shorted,
            open,
            next: ElementRead::Tip,
            next_plug_check_at: now + empty_poll_interval,
            next_ring_check_at: now + ring_check_interval,
            next_solve_at: now + open_solve_interval,
            ring_mismatch: false,
        }
    }

    /// The drives and contact of the next reading: a plug check, or the tip driven high and
    /// the sleeve low with the tip or the ring read.
    pub fn reading(&self) -> (r: ([Drive; CONTACT_COUNT], usize))
        ensures
            self.next == ElementRead::PlugCheck ==> r.0@ == spec_pair_drives(
                TIP_SWITCH as int,
                TIP as int,
            ) && r.1 == TIP_SWITCH,
            self.next == ElementRead::Tip ==> r.0@ == spec_pair_drives(TIP as int, SLEEVE as int)
                && r.1 == TIP,
            self.next == ElementRead::Ring ==> r.0@ == spec_pair_drives(TIP as int, SLEEVE as int)
                && r.1 == RING,
    {
        match self.next {
            ElementRead::PlugCheck => (plug_check_drives(), TIP_SWITCH),
            ElementRead::Tip => (pair_drives(TIP, SLEEVE), TIP),
            ElementRead::Ring => (pair_drives(TIP, SLEEVE), RING),
        }
    }

    /// Whether an open plug is due for a full solve, which takes over from following it.
    pub fn solve_due(&self, now: u64) -> (r: bool)
        ensures
            r == (self.open && now >= self.next_solve_at),
    {
        self.open && now >= self.next_solve_at
    }

    /// Picks the next reading: a plug check once it is due; straight after a tip reading that
    /// followed a mismatching ring check, the ring again to confirm it; a ring check behind a
    /// mono plug once it is due; the tip otherwise.
    pub fn advance(&mut self, now: u64, empty_poll_interval: u64, ring_check_interval: u64)
        requires
            now + empty_poll_interval <= u64::MAX,
            now + ring_check_interval <= u64::MAX,
        ensures
            final(self).ring_shorted == old(self).ring_shorted,
            final(self).open == old(self).open,
            final(self).next_solve_at == old(self).next_solve_at,
            final(self).ring_mismatch == old(self).ring_mismatch,
            now >= old(self).next_plug_check_at ==> final(self).next == ElementRead::PlugCheck
                && final(self).next_plug_check_at == now + empty_poll_interval
                && final(self).next_ring_check_at == old(self).next_ring_check_at,
            now < old(self).next_plug_check_at ==> final(self).next_plug_check_at == old(self).next_plug_check_at,
            now < old(self).next_plug_check_at && old(self).ring_mismatch && old(self).next
                == ElementRead::Tip ==> final(self).next == ElementRead::Ring
                && final(self).next_ring_check_at == old(self).next_ring_check_at,
            now < old(self).next_plug_check_at && !(old(self).ring_mismatch && old(self).next
                == ElementRead::Tip) && old(self).ring_shorted && now >= old(self).next_ring_check_at ==> final(self).next == ElementRead::Ring && final(self).next_ring_check_at == now + ring_check_interval,
            now < old(self).next_plug_check_at && !(old(self).ring_mismatch && old(self).next
                == ElementRead::Tip) && !(old(self).ring_shorted && now >= old(self).next_ring_check_at) ==> final(self).next == ElementRead::Tip && final(self).next_ring_check_at == old(self).next_ring_check_at,
    {
        self.next = if now >= self.next_plug_check_at {
            self.next_plug_check_at = now + empty_poll_interval;
            ElementRead::PlugCheck
        } else if self.ring_mismatch && self.next == ElementRead::Tip {
            // Straight after the fresh tip reading.
            ElementRead::Ring
        } else if self.ring_shorted && now >= self.next_ring_check_at {
            self.next_ring_check_at = now + ring_check_interval;
            ElementRead::Ring
        } else {
            ElementRead::Tip
        };
    }
}

/// What the readings of a followed tip-sleeve element have shown of its kind since the plug
/// went in.
#[derive(Clone, Copy, Debug, PartialEq, Eq, Structural)]
pub struct ElementKind {
    /// Enough readings in a row fell between closed and open: a rheostat, not a switch.
    pub rheostat: bool,
    /// Consecutive readings between closed and open.
    pub between_readings: u32,
}

impl ElementKind {
    /// Nothing read yet: taken for a switch.
    pub fn unknown() -> (r: Self)
        ensures
            !r.rheostat,
            r.between_readings == 0,
    {
        ElementKind { rheostat: false, between_readings: 0 }
    }

    /// Counts one reading, `between` closed and open or not. `rheostat_readings` such
    /// readings in a row make the element a rheostat, which it then stays.
    pub fn record(&mut self, between: bool, rheostat_readings: u32)
        ensures
            final(self).between_readings == if between {
                if old(self).between_readings < u32::MAX {
                    old(self).between_readings + 1
                } else {
                    old(self).between_readings as int
                }
            } else {
                0
            },
            final(self).rheostat == (old(self).rheostat || final(self).between_readings
                >= rheostat_readings),
            old(self).rheostat ==> final(self).rheostat,
    {
        self.between_readings = if !between {
            0
        } else if self.between_readings < u32::MAX {
            self.between_readings + 1
        } else {
            self.between_readings
        };
        if self.between_readings >= rheostat_readings {
            self.rheostat = true;
        }
    }
}

/// What a finished solve found behind the plug, as far as the jack's mode is concerned.
#[derive(Clone, Copy, Debug, PartialEq, Eq, Structural)]
pub enum Classification {
    /// Every arm isolated: either the plug came out or nothing behind it conducts, which only
    /// a plug check can tell.
    Disconnected,
    /// A potentiometer, with a clear wiper or resting on an end stop: followed by its wiper.
    Potentiometer,
    /// A ring-sleeve end stop whose total has changed since the first one: a rheostat behind
    /// a mono plug.
    RheostatBehindMonoPlug,
    /// Nothing but an element between tip and sleeve; `rheostat` once its readings have shown
    /// it to be one rather than a switch.
    TipSleeveElement { rheostat: bool },
    /// Any other network.
    Other,
}

/// What happened to a jack, as far as its mode is concerned.
#[derive(Clone, Copy, Debug, PartialEq, Eq, Structural)]
pub enum MonitorEvent {
    /// A plug check read the tip switch; `plugged` if it showed a plug.
    PlugCheck { plugged: bool },
    /// A solve finished and classified the network.
    Classified(Classification),
    /// A solve was rejected; it is simply taken again.
    SolveRejected,
    /// The tracked potentiometer or followed element stopped behaving like the one identified:
    /// unplugged, swapped or rewired.
    LostTrack,
    /// Something started conducting between tip and sleeve of an open plug.
    Conducts,
    /// A followed tip-sleeve element was read; `rheostat` once it is known to be one.
    ElementRead { rheostat: bool },
}

/// The mode a jack in `mode` is in after `event`.
pub open spec fn spec_next_mode(mode: JackMode, event: MonitorEvent) -> JackMode {
    match event {
        MonitorEvent::PlugCheck { plugged } => if !plugged {
            JackMode::Empty
        } else if mode == JackMode::Empty {
            JackMode::Identifying
        } else {
            JackMode::Open
        },
        MonitorEvent::Classified(classification) => match classification {
            Classification::Disconnected => mode,
            Classification::Potentiometer => JackMode::Tracking,
            Classification::RheostatBehindMonoPlug => JackMode::Rheostat,
            Classification::TipSleeveElement { rheostat } => if rheostat {
                JackMode::Rheostat
            } else {
                JackMode::Switch
            },
            Classification::Other => JackMode::Other,
        },
        MonitorEvent::SolveRejected => mode,
        MonitorEvent::LostTrack => JackMode::Identifying,
        MonitorEvent::Conducts => JackMode::Identifying,
        MonitorEvent::ElementRead { rheostat } => if rheostat {
            JackMode::Rheostat
        } else {
            JackMode::Switch
        },
    }
}

/// The mode a jack in `mode` is in after `event`: the per-jack state table of the monitor.
/// A plug check without a plug empties the jack whatever it was doing; one with a plug starts
/// identifying a freshly plugged jack, and otherwise means nothing conducted behind the plug.
pub fn next_mode(mode: JackMode, event: MonitorEvent) -> (r: JackMode)
    ensures
        r == spec_next_mode(mode, event),
{
    match event {
        MonitorEvent::PlugCheck { plugged } => {
            if !plugged {
                JackMode::Empty
            } else if mode == JackMode::Empty {
                JackMode::Identifying
            } else {
                // Nothing conducted behind the plug: watch tip and sleeve for connecting.
                JackMode::Open
            }
        },
        MonitorEvent::Classified(classification) => match classification {
            Classification::Disconnected => mode,
            Classification::Potentiometer => JackMode::Tracking,
            Classification::RheostatBehindMonoPlug => JackMode::Rheostat,
            Classification::TipSleeveElement { rheostat } => {
                if rheostat {
                    JackMode::Rheostat
                } else {
                    JackMode::Switch
                }
            },
            Classification::Other => JackMode::Other,
        },
        MonitorEvent::SolveRejected => mode,
        MonitorEvent::LostTrack | MonitorEvent::Conducts => JackMode::Identifying,
        MonitorEvent::ElementRead { rheostat } => {
            if rheostat {
                JackMode::Rheostat
            } else {
                JackMode::Switch
            }
        },
    }
}

/// What every event other than a plug check does to a jack's mode: a classified potentiometer
/// is tracked, an element between tip and sleeve is followed as a rheostat exactly when it is
/// known to be one and as a switch otherwise, any other network is solved again and again,
/// nothing conducting or a rejected solve leaves the mode as it was, and losing track of a
/// pedal or something conducting behind an open plug starts identifying it.
pub proof fn lemma_events_decide_the_mode(mode: JackMode, rheostat: bool)
    ensures
        spec_next_mode(mode, MonitorEvent::ElementRead { rheostat }) == if rheostat {
            JackMode::Rheostat
        } else {
            JackMode::Switch
        },
        spec_next_mode(mode, MonitorEvent::Classified(Classification::TipSleeveElement { rheostat }))
            == if rheostat {
            JackMode::Rheostat
        } else {
            JackMode::Switch
        },
        spec_next_mode(mode, MonitorEvent::Classified(Classification::Potentiometer))
            == JackMode::Tracking,
        spec_next_mode(mode, MonitorEvent::Classified(Classification::RheostatBehindMonoPlug))
            == JackMode::Rheostat,
        spec_next_mode(mode, MonitorEvent::Classified(Classification::Other)) == JackMode::Other,
        spec_next_mode(mode, MonitorEvent::Classified(Classification::Disconnected)) == mode,
        spec_next_mode(mode, MonitorEvent::SolveRejected) == mode,
        spec_next_mode(mode, MonitorEvent::LostTrack) == JackMode::Identifying,
        spec_next_mode(mode, MonitorEvent::Conducts) == JackMode::Identifying,
{
}

/// Whether a plug check changed the jack's report: it did exactly when it changed the mode.
pub fn plug_check_changed(mode: JackMode, plugged: bool) -> (r: bool)
    ensures
        r == (spec_next_mode(mode, MonitorEvent::PlugCheck { plugged }) != mode),
{
    let next = next_mode(mode, MonitorEvent::PlugCheck { plugged });
    next != mode
}

/// How the jack's mode answers plugging and unplugging: a plug check that sees no plug always
/// empties the jack, one that sees a plug in an empty jack starts identifying it, and a jack
/// is only tracked once a solve has classified a potentiometer (staying tracked while
/// nothing else happens).
pub proof fn lemma_plug_checks_decide_emptiness(mode: JackMode, event: MonitorEvent)
    ensures
        event == (MonitorEvent::PlugCheck { plugged: false }) ==> spec_next_mode(mode, event)
            == JackMode::Empty,
        mode == JackMode::Empty && event == (MonitorEvent::PlugCheck { plugged: true })
            ==> spec_next_mode(mode, event) == JackMode::Identifying,
        mode != JackMode::Empty && event == (MonitorEvent::PlugCheck { plugged: true })
            ==> spec_next_mode(mode, event) == JackMode::Open,
        spec_next_mode(mode, event) == JackMode::Tracking ==> event == MonitorEvent::Classified(
            Classification::Potentiometer,
        ) || (mode == JackMode::Tracking && (event is SolveRejected || event == MonitorEvent::Classified(
            Classification::Disconnected,
        ))),
{
}

} // verus!
