//! Values shared with the browser: how each arm is pulled while measured, and which contact a
//! potentiometer's wiper is set to be on.

use vstd::prelude::*;

use crate::topology::Drive;

pub use crate::board::JACK_COUNT;

verus! {

/// Rail an arm is driven to while it is measured, mirroring [`Drive`] for the web protocol.
#[derive(Debug, Clone, Copy, PartialEq, Eq, Structural)]
pub enum ArmPull {
    Up,
    Down,
    Floating,
}

impl From<Drive> for ArmPull {
    fn from(drive: Drive) -> (r: Self) {
        match drive {
            Drive::High => ArmPull::Up,
            Drive::Low => ArmPull::Down,
            Drive::Floating => ArmPull::Floating,
        }
    }
}

impl vstd::std_specs::convert::FromSpecImpl<Drive> for ArmPull {
    open spec fn obeys_from_spec() -> bool {
        true
    }

    open spec fn from_spec(drive: Drive) -> ArmPull {
        match drive {
            Drive::High => ArmPull::Up,
            Drive::Low => ArmPull::Down,
            Drive::Floating => ArmPull::Floating,
        }
    }
}

/// Which contact of a jack a potentiometer's wiper is on, for the one end stop where the
/// measurement cannot tell: ring and sleeve shorted together.
#[derive(Debug, Clone, Copy, PartialEq, Eq, Structural)]
pub enum WiperContact {
    /// The wiper last seen in the jack, or the ring.
    Auto,
    Tip,
    Ring,
    Sleeve,
}

impl WiperContact {
    /// Arm index of the contact, `None` for [`Auto`](Self::Auto).
    pub fn arm(self) -> (r: Option<usize>)
        ensures
            r == match self {
                WiperContact::Auto => None,
                WiperContact::Tip => Some(0usize),
                WiperContact::Ring => Some(1usize),
                WiperContact::Sleeve => Some(2usize),
            },
    {
        match self {
            Self::Auto => None,
            Self::Tip => Some(0),
            Self::Ring => Some(1),
            Self::Sleeve => Some(2),
        }
    }
}

/// Period the demonstration status sweeps every pretend pedal back and forth in, in ms.
pub const SWEEP_PERIOD_MILLISECONDS: u64 = 4000;

/// How far into its sweep pretend pedal `jack` is after `uptime_milliseconds`: each jack a
/// quarter period behind the one before.
pub fn sweep_phase(uptime_milliseconds: u64, jack: usize) -> (r: u64)
    requires
        jack < JACK_COUNT,
        uptime_milliseconds + SWEEP_PERIOD_MILLISECONDS <= u64::MAX,
    ensures
        r == (uptime_milliseconds + jack * SWEEP_PERIOD_MILLISECONDS / JACK_COUNT as int) % (
        SWEEP_PERIOD_MILLISECONDS as int),
        r < SWEEP_PERIOD_MILLISECONDS,
{
    let phase_offset = jack as u64 * SWEEP_PERIOD_MILLISECONDS / JACK_COUNT as u64;
    (uptime_milliseconds + phase_offset) % SWEEP_PERIOD_MILLISECONDS
}

} // verus!
