//! The read-only data register holding the last conversion result.

use vstd::prelude::*;

use super::RegisterValue;

verus! {

/// Data register (address 0x04, three bytes): the 24-bit result of the last conversion.
pub type Data = RegisterValue<0x04, 3>;

} // verus!
