//! Register layouts of the AD7718, as bit fields of the value shifted over the wire.

use vstd::prelude::*;

pub mod control;
pub mod data;
pub mod filter;
pub mod id;
pub mod mode;
pub mod status;

verus! {

/// All ones in the lowest `width` bits.
pub open spec fn field_mask(width: u32) -> u32 {
    ((1u32 << width) - 1) as u32
}

/// The `width`-bit field starting at bit `shift` of `bits`.
pub open spec fn field_of(bits: u32, shift: u32, width: u32) -> u32 {
    (bits >> shift) & field_mask(width)
}

/// Whether bit `shift` of `bits` is set.
pub open spec fn bit_of(bits: u32, shift: u32) -> bool {
    field_of(bits, shift, 1) != 0
}

/// `bits` with the `width`-bit field at `shift` replaced by the low bits of `value`.
pub open spec fn with_field(bits: u32, shift: u32, width: u32, value: u32) -> u32 {
    (bits & !(field_mask(width) << shift)) | ((value & field_mask(width)) << shift)
}

/// `bits` with bit `shift` set to `value`.
pub open spec fn with_bit(bits: u32, shift: u32, value: bool) -> u32 {
    with_field(bits, shift, 1, if value { 1 } else { 0 })
}

/// The bits of `bits` outside the `width`-bit field at `shift`.
pub open spec fn outside_field(bits: u32, shift: u32, width: u32) -> u32 {
    bits & !(field_mask(width) << shift)
}

/// Two fields of one register that share no bit.
pub open spec fn disjoint(shift: u32, width: u32, other_shift: u32, other_width: u32) -> bool {
    shift + width <= other_shift || other_shift + other_width <= shift
}

/// A field that fits in a register.
pub open spec fn valid_field(shift: u32, width: u32) -> bool {
    1 <= width && shift + width <= 32
}

/// Reading a field back after writing it gives the low bits of what was written.
pub proof fn lemma_field_read_back(bits: u32, shift: u32, width: u32, value: u32)
    requires
        valid_field(shift, width),
    ensures
        field_of(with_field(bits, shift, width, value), shift, width) == value & field_mask(width),
{
    assert(((((bits & !((((1u32 << width) - 1) as u32) << shift)) | ((value & (((1u32 << width)
        - 1) as u32)) << shift)) >> shift) & (((1u32 << width) - 1) as u32)) == value & (((1u32
        << width) - 1) as u32)) by (bit_vector)
        requires
            1 <= width,
            shift + width <= 32,
    ;
}

/// Writing a field leaves every field that shares no bit with it as it was.
pub proof fn lemma_field_frame(
    bits: u32,
    shift: u32,
    width: u32,
    value: u32,
    other_shift: u32,
    other_width: u32,
)
    requires
        valid_field(shift, width),
        valid_field(other_shift, other_width),
        disjoint(shift, width, other_shift, other_width),
    ensures
        field_of(with_field(bits, shift, width, value), other_shift, other_width) == field_of(
            bits,
            other_shift,
            other_width,
        ),
{
    assert(((((bits & !((((1u32 << width) - 1) as u32) << shift)) | ((value & (((1u32 << width)
        - 1) as u32)) << shift)) >> other_shift) & (((1u32 << other_width) - 1) as u32)) == ((bits
        >> other_shift) & (((1u32 << other_width) - 1) as u32))) by (bit_vector)
        requires
            1 <= width,
            shift + width <= 32,
            1 <= other_width,
            other_shift + other_width <= 32,
            shift + width <= other_shift || other_shift + other_width <= shift,
    ;
}

/// Writing a field leaves every bit outside it as it was.
pub proof fn lemma_field_keeps_rest(bits: u32, shift: u32, width: u32, value: u32)
    requires
        valid_field(shift, width),
    ensures
        outside_field(with_field(bits, shift, width, value), shift, width) == outside_field(
            bits,
            shift,
            width,
        ),
{
    assert((((bits & !((((1u32 << width) - 1) as u32) << shift)) | ((value & (((1u32 << width)
        - 1) as u32)) << shift)) & !((((1u32 << width) - 1) as u32) << shift)) == (bits & !((((1u32
        << width) - 1) as u32) << shift))) by (bit_vector)
        requires
            1 <= width,
            shift + width <= 32,
    ;
}

/// Writing a field with the value it already holds changes nothing.
pub proof fn lemma_field_write_back(bits: u32, shift: u32, width: u32)
    requires
        valid_field(shift, width),
    ensures
        with_field(bits, shift, width, field_of(bits, shift, width)) == bits,
{
    assert(((bits & !((((1u32 << width) - 1) as u32) << shift)) | ((((bits >> shift) & (((1u32
        << width) - 1) as u32)) & (((1u32 << width) - 1) as u32)) << shift)) == bits) by (bit_vector)
        requires
            1 <= width,
            shift + width <= 32,
    ;
}

/// The one-bit field at `shift`, read and written with single-bit operations.
proof fn lemma_single_bit(bits: u32, shift: u32, value: u32)
    requires
        shift < 32,
        value <= 1,
    ensures
        field_of(bits, shift, 1) == (bits >> shift) & 1,
        with_field(bits, shift, 1, value) == (bits & !(1u32 << shift)) | (value << shift),
{
    assert(field_mask(1) == 1) by (bit_vector);
    assert(((bits & !(1u32 << shift)) | (value << shift)) == ((bits & !(1u32 << shift)) | ((value
        & 1u32) << shift))) by (bit_vector)
        requires
            value <= 1,
    ;
}

/// Writing one field keeps every field in `fields` that shares no bit with it.
pub proof fn lemma_keeps_fields(
    bits: u32,
    shift: u32,
    width: u32,
    value: u32,
    fields: Seq<(u32, u32)>,
)
    requires
        valid_field(shift, width),
        forall|i: int|
            0 <= i < fields.len() ==> valid_field(#[trigger] fields[i].0, fields[i].1) && disjoint(
                shift,
                width,
                fields[i].0,
                fields[i].1,
            ),
    ensures
        forall|i: int|
            0 <= i < fields.len() ==> field_of(with_field(bits, shift, width, value), #[trigger] fields[i].0, fields[i].1)
                == field_of(bits, fields[i].0, fields[i].1),
{
    assert forall|i: int| 0 <= i < fields.len() implies field_of(
        with_field(bits, shift, width, value),
        #[trigger] fields[i].0,
        fields[i].1,
    ) == field_of(bits, fields[i].0, fields[i].1) by {
        lemma_field_frame(bits, shift, width, value, fields[i].0, fields[i].1);
    }
}

/// An AD7718 register, `width()` bytes wide on the wire (most significant byte first).
pub trait Register: Sized {
    fn address() -> u8;

    fn width() -> usize;

    fn bits(&self) -> u32;

    fn from_bits(bits: u32) -> Self;
}

/// A register value generic over its wire address and width, with the bit field accessors
/// every concrete register is built from.
#[derive(Clone, Copy, Debug)]
pub struct RegisterValue<const ADDRESS: u8, const WIDTH: usize>(u32);

impl<const ADDRESS: u8, const WIDTH: usize> View for RegisterValue<ADDRESS, WIDTH> {
    type V = u32;

    closed spec fn view(&self) -> u32 {
        self.0
    }
}

impl<const ADDRESS: u8, const WIDTH: usize> Register for RegisterValue<ADDRESS, WIDTH> {
    fn address() -> (r: u8)
        ensures
            r == ADDRESS,
    {
        ADDRESS
    }

    fn width() -> (r: usize)
        ensures
            r == WIDTH,
    {
        WIDTH
    }

    fn bits(&self) -> (r: u32)
        ensures
            r == self@,
    {
        self.0
    }

    fn from_bits(bits: u32) -> (r: Self)
        ensures
            r@ == bits,
    {
        Self(bits)
    }
}

impl<const ADDRESS: u8, const WIDTH: usize> RegisterValue<ADDRESS, WIDTH> {
    /// The register with every bit clear, as a freshly built value starts.
    pub fn zero() -> (r: Self)
        ensures
            r@ == 0,
    {
        Self(0)
    }

    /// Reads a single bit, `true` when the wire bit is set.
    pub fn bit(&self, shift: u32) -> (r: bool)
        requires
            shift < 32,
        ensures
            r == bit_of(self@, shift),
    {
        proof {
            lemma_single_bit(self@, shift, 0);
        }
        (self.0 >> shift) & 1 != 0
    }

    /// Writes a single bit.
    pub fn set_bit(&mut self, shift: u32, value: bool)
        requires
            shift < 32,
        ensures
            final(self)@ == with_bit(old(self)@, shift, value),
    {
        let bit: u32 = if value { 1 } else { 0 };
        proof {
            lemma_single_bit(self@, shift, bit);
        }
        self.0 = (self.0 & !(1u32 << shift)) | (bit << shift);
    }

    /// Reads a single bit that is active low on the wire (0 means "true").
    pub fn bit_active_low(&self, shift: u32) -> (r: bool)
        requires
            shift < 32,
        ensures
            r == !bit_of(self@, shift),
    {
        proof {
            lemma_single_bit(self@, shift, 0);
        }
        (self.0 >> shift) & 1 == 0
    }

    /// Writes a single bit that is active low on the wire.
    pub fn set_bit_active_low(&mut self, shift: u32, value: bool)
        requires
            shift < 32,
        ensures
            final(self)@ == with_bit(old(self)@, shift, !value),
    {
        let bit: u32 = if value { 0 } else { 1 };
        proof {
            lemma_single_bit(self@, shift, bit);
        }
        self.0 = (self.0 & !(1u32 << shift)) | (bit << shift);
    }

    /// Reads a multi-bit field of at most eight bits.
    pub fn field(&self, shift: u32, width: u32) -> (r: u8)
        requires
            valid_field(shift, width),
            width <= 8,
        ensures
            r == field_of(self@, shift, width),
            r <= field_mask(width),
    {
        proof {
            lemma_mask_fits(width);
        }
        let mask = (1u32 << width) - 1;
        let value = (self.0 >> shift) & mask;
        proof {
            let bits = self.0;
            assert(value <= mask) by (bit_vector)
                requires
                    value == (bits >> shift) & mask,
            ;
        }
        value as u8
    }

    /// Writes a multi-bit field, keeping only the low `width` bits of `value`.
    pub fn set_field(&mut self, shift: u32, width: u32, value: u8)
        requires
            valid_field(shift, width),
            width <= 8,
        ensures
            final(self)@ == with_field(old(self)@, shift, width, value as u32),
    {
        proof {
            lemma_mask_fits(width);
        }
        let mask = (1u32 << width) - 1;
        self.0 = (self.0 & !(mask << shift)) | ((value as u32 & mask) << shift);
    }
}

/// The masks of the field widths the AD7718's registers use.
pub proof fn lemma_small_masks()
    ensures
        field_mask(1) == 1,
        field_mask(3) == 7,
        field_mask(4) == 15,
        field_mask(8) == 255,
{
    assert(field_mask(1) == 1 && field_mask(3) == 7 && field_mask(4) == 15 && field_mask(8) == 255)
        by (bit_vector);
}

/// What writing a field of a register guarantees: the field reads back the low bits of the
/// value written, and every bit outside it is unchanged.
pub proof fn lemma_write_field(bits: u32, shift: u32, width: u32, value: u32)
    requires
        valid_field(shift, width),
    ensures
        field_of(with_field(bits, shift, width, value), shift, width) == value & field_mask(width),
        outside_field(with_field(bits, shift, width, value), shift, width) == outside_field(
            bits,
            shift,
            width,
        ),
{
    lemma_field_read_back(bits, shift, width, value);
    lemma_field_keeps_rest(bits, shift, width, value);
}

/// A value that fits in a field passes its mask unchanged.
pub proof fn lemma_fits_mask(value: u32, width: u32)
    requires
        1 <= width < 32,
        value <= field_mask(width),
    ensures
        value & field_mask(width) == value,
{
    assert(value & (((1u32 << width) - 1) as u32) == value) by (bit_vector)
        requires
            1 <= width < 32,
            value <= (((1u32 << width) - 1) as u32),
    ;
}

/// Writing a value that fits in a field: it reads back exactly, and nothing else changes.
pub proof fn lemma_write_small_field(bits: u32, shift: u32, width: u32, value: u32)
    requires
        valid_field(shift, width),
        width < 32,
        value <= field_mask(width),
    ensures
        field_of(with_field(bits, shift, width, value), shift, width) == value,
        outside_field(with_field(bits, shift, width, value), shift, width) == outside_field(
            bits,
            shift,
            width,
        ),
{
    lemma_write_field(bits, shift, width, value);
    lemma_fits_mask(value, width);
}

/// Writing a single bit: it reads back as written, and nothing else changes.
pub proof fn lemma_write_bit(bits: u32, shift: u32, value: bool)
    requires
        shift < 32,
    ensures
        bit_of(with_bit(bits, shift, value), shift) == value,
        outside_field(with_bit(bits, shift, value), shift, 1) == outside_field(bits, shift, 1),
{
    lemma_small_masks();
    lemma_write_small_field(bits, shift, 1, if value { 1 } else { 0 });
}

/// Writing a field that lies within the low byte of a register keeps it within a byte.
pub proof fn lemma_field_stays_in_byte(bits: u32, shift: u32, width: u32, value: u32)
    requires
        bits < 256,
        1 <= width,
        shift + width <= 8,
    ensures
        with_field(bits, shift, width, value) < 256,
{
    assert(((bits & !((((1u32 << width) - 1) as u32) << shift)) | ((value & (((1u32 << width)
        - 1) as u32)) << shift)) < 256) by (bit_vector)
        requires
            bits < 256,
            1 <= width,
            shift + width <= 8,
    ;
}

/// The mask of a field up to eight bits wide fits in a byte.
proof fn lemma_mask_fits(width: u32)
    requires
        1 <= width <= 8,
    ensures
        1 <= (1u32 << width) <= 256,
        field_mask(width) < 256,
{
    assert(1 <= (1u32 << width) <= 256) by (bit_vector)
        requires
            1 <= width <= 8,
    ;
}

} // verus!
