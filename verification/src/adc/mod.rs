//! The AD7718 converter: its communication register and the register layouts behind it.

use vstd::prelude::*;

pub mod registers;

verus! {

/// Part ID the upper nibble of an AD7718's ID register holds.
pub const AD7718_ID: u8 = 0x40;

/// Direction of the access the communication register announces.
#[derive(Clone, Copy, Debug, PartialEq, Eq, Structural)]
pub enum RegisterOperation {
    Write,
    Read,
}

impl RegisterOperation {
    /// Value of the variant in its register field.
    pub open spec fn spec_bits(self) -> u8 {
        match self {
            RegisterOperation::Write => 0,
            RegisterOperation::Read => 1,
        }
    }

    /// The variant a field value encodes: every value up to 1 names one.
    pub open spec fn spec_from_bits(bits: u8) -> Self {
        if bits == 0 {
            RegisterOperation::Write
        } else {
            RegisterOperation::Read
        }
    }

    pub fn bits(self) -> (r: u8)
        ensures
            r == self.spec_bits(),
            r <= 1,
            Self::spec_from_bits(r) == self,
    {
        match self {
            RegisterOperation::Write => 0,
            RegisterOperation::Read => 1,
        }
    }

    pub fn from_bits(bits: u8) -> (r: Self)
        requires
            bits <= 1,
        ensures
            r == Self::spec_from_bits(bits),
            r.spec_bits() == bits,
    {
        if bits == 0 {
            RegisterOperation::Write
        } else {
            RegisterOperation::Read
        }
    }
}

/// Addresses of the AD7718's registers.
#[derive(Clone, Copy, Debug, PartialEq, Eq, Structural)]
pub enum RegisterAddress {
    Status,
    Mode,
    Control,
    Filter,
    Data,
    Offset,
    Gain,
    IOControl,
    Test1,
    Test2,
    ID,
}

impl RegisterAddress {
    /// The register's address.
    pub open spec fn spec_bits(self) -> u8 {
        match self {
            RegisterAddress::Status => 0,
            RegisterAddress::Mode => 1,
            RegisterAddress::Control => 2,
            RegisterAddress::Filter => 3,
            RegisterAddress::Data => 4,
            RegisterAddress::Offset => 5,
            RegisterAddress::Gain => 6,
            RegisterAddress::IOControl => 7,
            RegisterAddress::Test1 => 12,
            RegisterAddress::Test2 => 13,
            RegisterAddress::ID => 15,
        }
    }

    pub fn bits(self) -> (r: u8)
        ensures
            r == self.spec_bits(),
            r <= 15,
    {
        match self {
            RegisterAddress::Status => 0,
            RegisterAddress::Mode => 1,
            RegisterAddress::Control => 2,
            RegisterAddress::Filter => 3,
            RegisterAddress::Data => 4,
            RegisterAddress::Offset => 5,
            RegisterAddress::Gain => 6,
            RegisterAddress::IOControl => 7,
            RegisterAddress::Test1 => 12,
            RegisterAddress::Test2 => 13,
            RegisterAddress::ID => 15,
        }
    }
}

/// The AD7718's register map: the eight working registers at addresses 0 to 7 in the
/// datasheet's order (status, mode, control, filter, data, offset, gain, I/O control), the two
/// test registers at 12 and 13, and the ID register at the last address, 15; and the R/W bit
/// set for a read.
pub proof fn lemma_register_map(address: RegisterAddress, operation: RegisterOperation)
    ensures
        address == RegisterAddress::Status ==> address.spec_bits() == 0,
        address == RegisterAddress::Mode ==> address.spec_bits() == 1,
        address == RegisterAddress::Control ==> address.spec_bits() == 2,
        address == RegisterAddress::Filter ==> address.spec_bits() == 3,
        address == RegisterAddress::Data ==> address.spec_bits() == 4,
        address == RegisterAddress::Offset ==> address.spec_bits() == 5,
        address == RegisterAddress::Gain ==> address.spec_bits() == 6,
        address == RegisterAddress::IOControl ==> address.spec_bits() == 7,
        address == RegisterAddress::Test1 ==> address.spec_bits() == 12,
        address == RegisterAddress::Test2 ==> address.spec_bits() == 13,
        address == RegisterAddress::ID ==> address.spec_bits() == 15,
        operation.spec_bits() == 1 <==> operation == RegisterOperation::Read,
        operation.spec_bits() == 0 <==> operation == RegisterOperation::Write,
{
}

/// The communication register byte announcing an access: R/W in bit 6, the register address
/// in bits 3..0, and bit 7 (WEN) clear so the chip accepts it.
pub open spec fn communication_byte(operation: RegisterOperation, address: u8) -> u8 {
    ((operation.spec_bits() << 6u8) | (address & 0x0f)) as u8
}

/// The communication register byte for `operation` on `address`.
pub fn pack_cr(operation: RegisterOperation, address: RegisterAddress) -> (r: u8)
    ensures
        r == communication_byte(operation, address.spec_bits()),
        r & 0x0f == address.spec_bits(),
        (r >> 6u8) & 1 == operation.spec_bits(),
        r & 0x80 == 0,
{
    let op = operation.bits();
    let addr = address.bits();
    proof {
        assert(((op << 6u8) | (addr & 0x0f)) & 0x0f == addr && (((op << 6u8) | (addr & 0x0f))
            >> 6u8) & 1 == op && ((op << 6u8) | (addr & 0x0f)) & 0x80 == 0) by (bit_vector)
            requires
                op <= 1,
                addr <= 15,
        ;
    }
    (op << 6) | (addr & 0x0f)
}

/// Whether an ID register value identifies an AD7718, whatever its silicon revision.
pub fn is_ad7718(id: registers::id::Id) -> (r: bool)
    ensures
        r == (id@ & 0xf0 == AD7718_ID),
{
    id.chip_id() == AD7718_ID
}

} // verus!
