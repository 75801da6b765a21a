//! The read-only status register.

use vstd::prelude::*;

use super::{bit_of, Register, RegisterValue};

verus! {

/// Status register (address 0x00, one byte).
#[derive(Clone, Copy)]
pub struct Status(RegisterValue<0x00, 1>);

impl View for Status {
    type V = u32;

    closed spec fn view(&self) -> u32 {
        self.0@
    }
}

impl Register for Status {
    fn address() -> (r: u8)
        ensures
            r == 0x00,
    {
        RegisterValue::<0x00, 1>::address()
    }

    fn width() -> (r: usize)
        ensures
            r == 1,
    {
        RegisterValue::<0x00, 1>::width()
    }

    fn bits(&self) -> (r: u32)
        ensures
            r == self@,
    {
        self.0.bits()
    }

    fn from_bits(bits: u32) -> (r: Self)
        ensures
            r@ == bits,
    {
        Status(RegisterValue::from_bits(bits))
    }
}

impl Status {
    /// A conversion result is ready: RDY (bit 7) reads low.
    pub fn ready(&self) -> (r: bool)
        ensures
            r == !bit_of(self@, 7),
    {
        !self.0.bit(7)
    }

    /// A calibration has finished: CAL (bit 5) reads low.
    pub fn calibration(&self) -> (r: bool)
        ensures
            r == !bit_of(self@, 5),
    {
        !self.0.bit(5)
    }

    /// An error occurred: ERR (bit 3) reads low.
    pub fn error(&self) -> (r: bool)
        ensures
            r == !bit_of(self@, 3),
    {
        !self.0.bit(3)
    }

    /// The phase-locked loop is locked: LOCK (bit 0) reads high.
    pub fn lock(&self) -> (r: bool)
        ensures
            r == bit_of(self@, 0),
    {
        self.0.bit(0)
    }
}

} // verus!
