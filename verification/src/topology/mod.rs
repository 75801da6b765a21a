//! The integer half of the jack topology monitor: which contacts to drive and read next,
//! how a solve's pairs follow each other, which arm a potentiometer's wiper is on, and in
//! which order the jacks on each ADC are served. Everything that weighs voltages lives in
//! the firmware around it; it hands the outcome of each comparison back as plain values.

use vstd::prelude::*;

pub mod monitor;
pub mod scanner;
pub mod sequence;

verus! {

/// Arms meeting at the star point of one jack: tip, ring and sleeve.
pub const ARM_COUNT: usize = 3;

/// Contacts of one jack that can be driven and read: its three arms plus the tip's
/// normalling contact.
pub const CONTACT_COUNT: usize = 4;

/// Index of the tip switch contact among a jack's contacts.
pub const TIP_SWITCH: usize = 3;

/// Arm the tip switch touches while no plug is inserted.
pub const TIP: usize = 0;

/// Arm of the ring, the wiper of the one common wiring without it on the tip.
pub const RING: usize = 1;

/// Arm of the sleeve, the ground end of every common wiring.
pub const SLEEVE: usize = 2;

/// Arm a pedal's track is grounded on in the TRS convention: the sleeve.
pub const GROUNDED_END: usize = 2;

/// How one contact is driven.
#[derive(Clone, Copy, Debug, PartialEq, Eq, Structural)]
pub enum Drive {
    High,
    Low,
    Floating,
}

/// What a monitor currently makes of its jack.
#[derive(Clone, Copy, Debug, PartialEq, Eq, Structural)]
pub enum JackMode {
    /// No plug in the jack.
    Empty,
    /// Full solves until the network is known: just plugged in, or tracking lost it.
    Identifying,
    /// A potentiometer, followed by reading its wiper against its two track ends.
    Tracking,
    /// A switch between tip and sleeve (a sustain pedal), followed by reading the tip.
    Switch,
    /// A variable resistor between tip and sleeve (a two-wire expression pedal), followed by
    /// reading the tip.
    Rheostat,
    /// Some other network, solved in full again and again.
    Other,
    /// A plug with nothing conducting behind it, watched for tip and sleeve connecting.
    Open,
}

/// How a solved network reads as a potentiometer.
#[derive(Clone, Copy, Debug, PartialEq, Eq)]
pub enum Potentiometer {
    /// Exactly this arm sits at the star point: the wiper.
    Wiper(usize),
    /// Two arms sit at the star point, the lower-resistance one first: the wiper resting on
    /// one end of the track. Either of them could be the wiper.
    EndStop([usize; 2]),
}

/// The two arms that are not `wiper`, as the track's start and end: the grounded end first
/// whenever it is one of them, so positions count up away from the sleeve, and otherwise
/// the lower-numbered one. (An arm index beyond the three arms leaves arms 0 and 1.)
pub open spec fn spec_track_ends(wiper: usize) -> (usize, usize) {
    if wiper == 0 {
        (2, 1)
    } else if wiper == 1 {
        (2, 0)
    } else {
        (0, 1)
    }
}

/// The two arms that are not `wiper`, as the track's start and end: [`GROUNDED_END`] first
/// whenever it is one of them, so positions count up away from the sleeve, and otherwise the
/// lower-numbered one.
pub fn track_ends(wiper: usize) -> (r: (usize, usize))
    ensures
        r == spec_track_ends(wiper),
        wiper < ARM_COUNT ==> r.0 != wiper && r.1 != wiper && r.0 != r.1 && r.0 < ARM_COUNT
            && r.1 < ARM_COUNT,
        wiper < ARM_COUNT && wiper != GROUNDED_END ==> r.0 == GROUNDED_END,
        wiper == GROUNDED_END ==> r.0 < r.1,
{
    // The arms other than the wiper, in order.
    let first: usize = if wiper == 0 { 1 } else { 0 };
    let second: usize = if wiper == 0 || wiper == 1 { 2 } else { 1 };

    if second == GROUNDED_END {
        (second, first)
    } else {
        (first, second)
    }
}

/// Order the taps of a pair are read in: the two driven ones first, and the floating one
/// last, since it charges its filter capacitor through the whole network.
pub fn pair_read_order(high: usize, low: usize) -> (r: [usize; ARM_COUNT])
    requires
        high < ARM_COUNT,
        low < ARM_COUNT,
        high != low,
    ensures
        r@ == seq![high, low, (ARM_COUNT - high - low) as usize],
        r@[2] < ARM_COUNT && r@[2] != high && r@[2] != low,
{
    let r = [high, low, ARM_COUNT - high - low];
    assert(r@ =~= seq![high, low, (ARM_COUNT - high - low) as usize]);
    r
}

} // verus!
