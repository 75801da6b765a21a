//! The read-only ID register.

use vstd::prelude::*;

use super::Register;

verus! {

/// Chip identification register (address 0x0f, one byte). The upper nibble holds the part
/// ID; the lower nibble encodes the silicon revision.
#[derive(Clone, Copy, Debug)]
pub struct Id(u8);

impl View for Id {
    type V = u8;

    closed spec fn view(&self) -> u8 {
        self.0
    }
}

impl Register for Id {
    fn address() -> (r: u8)
        ensures
            r == 0x0f,
    {
        0x0f
    }

    fn width() -> (r: usize)
        ensures
            r == 1,
    {
        1
    }

    fn bits(&self) -> (r: u32)
        ensures
            r == self@,
    {
        self.0 as u32
    }

    fn from_bits(bits: u32) -> (r: Self)
        ensures
            r@ == bits as u8,
    {
        Id(bits as u8)
    }
}

impl Id {
    /// The part ID: the upper nibble, with the revision masked off.
    pub fn chip_id(self) -> (r: u8)
        ensures
            r == self@ & 0xf0,
    {
        self.0 & 0xf0
    }
}

} // verus!
