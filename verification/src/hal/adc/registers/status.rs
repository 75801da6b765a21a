//! The read-only status register as the chain driver uses it.

use vstd::prelude::*;

use crate::adc::registers::{bit_of, RegisterValue};

verus! {

/// Status register (address 0x00, one byte).
pub type Status = RegisterValue<0x00, 1>;

impl Status {
    /// A conversion result is ready: RDY (bit 7) is active low.
    pub fn ready(&self) -> (r: bool)
        ensures
            r == !bit_of(self@, 7),
    {
        self.bit_active_low(7)
    }

    /// A calibration has finished: CAL (bit 5) is active low.
    pub fn calibration(&self) -> (r: bool)
        ensures
            r == !bit_of(self@, 5),
    {
        self.bit_active_low(5)
    }

    /// An error occurred: ERR (bit 3) is active low.
    pub fn error(&self) -> (r: bool)
        ensures
            r == !bit_of(self@, 3),
    {
        self.bit_active_low(3)
    }

    /// The phase-locked loop is locked: LOCK (bit 0).
    pub fn lock(&self) -> (r: bool)
        ensures
            r == bit_of(self@, 0),
    {
        self.bit(0)
    }
}

} // verus!
