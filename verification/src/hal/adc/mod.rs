//! Driving the chain of AD7718s: the register values every conversion and calibration is
//! configured with, the wire format registers travel in, and the checks on what comes back.
//! The SPI transfers and the waiting on the ready lines belong to the firmware around it.

use vstd::prelude::*;

pub mod registers;

use crate::adc::registers::control::ChannelConfiguration;
use crate::adc::registers::filter::{max_word, min_word, rate_distance, rate_of_word, word_for_rate};
use crate::adc::registers::id::Id;
use crate::adc::registers::{lemma_field_stays_in_byte, Register, RegisterValue};
use crate::adc::{communication_byte, RegisterOperation, AD7718_ID};
use registers::control::Control;
use registers::filter::Filter;
use registers::mode::{AdcMode, Mode, Reference};

pub use registers::control::{Coding, Range};
pub use registers::mode::ChannelCount;

verus! {

/// Widest register on the wire (the 24-bit data register), in bytes.
pub const MAX_REGISTER_WIDTH: usize = 3;

/// Bytes of the longest transfer: the communication byte and the widest register.
pub const FRAME_LENGTH: usize = 4;

/// What can go wrong talking to the chain, apart from the SPI transfers themselves.
#[derive(Clone, Copy, Debug, PartialEq, Eq, Structural)]
pub enum AdcChainError {
    IdMismatch { chip: u8, expected_id: u8, actual_id: u8 },
    InvalidChannel { chip: u8, channel: u8 },
    ContinuousMeasurementNotRunning,
}

/// How every chip in the chain is set up.
#[derive(Clone, Copy)]
pub struct AdcChainConfig {
    chopping: bool,
    negative_buffer: bool,
    reference: Reference,
    channel_count: ChannelCount,
    oscillator_power_down: bool,
    coding: Coding,
    range: Range,
    update_rate: u32,
}

impl AdcChainConfig {
    pub closed spec fn spec_chopping(self) -> bool {
        self.chopping
    }

    pub closed spec fn spec_negative_buffer(self) -> bool {
        self.negative_buffer
    }

    pub closed spec fn spec_reference(self) -> Reference {
        self.reference
    }

    pub closed spec fn spec_channel_count(self) -> ChannelCount {
        self.channel_count
    }

    pub closed spec fn spec_oscillator_power_down(self) -> bool {
        self.oscillator_power_down
    }

    pub closed spec fn spec_coding(self) -> Coding {
        self.coding
    }

    pub closed spec fn spec_range(self) -> Range {
        self.range
    }

    /// Requested conversion rate, in Hz.
    pub closed spec fn spec_update_rate(self) -> u32 {
        self.update_rate
    }

    /// Everything but the channel count is as in `other`.
    pub open spec fn same_but_channel_count(self, other: Self) -> bool {
        &&& self.spec_chopping() == other.spec_chopping()
        &&& self.spec_negative_buffer() == other.spec_negative_buffer()
        &&& self.spec_reference() == other.spec_reference()
        &&& self.spec_oscillator_power_down() == other.spec_oscillator_power_down()
        &&& self.spec_coding() == other.spec_coding()
        &&& self.spec_range() == other.spec_range()
        &&& self.spec_update_rate() == other.spec_update_rate()
    }

    /// Everything but the range, coding and rate is as in `other`.
    pub open spec fn same_chip_setup(self, other: Self) -> bool {
        &&& self.spec_chopping() == other.spec_chopping()
        &&& self.spec_negative_buffer() == other.spec_negative_buffer()
        &&& self.spec_reference() == other.spec_reference()
        &&& self.spec_channel_count() == other.spec_channel_count()
        &&& self.spec_oscillator_power_down() == other.spec_oscillator_power_down()
    }

    pub fn with_channel_count(self, channel_count: ChannelCount) -> (r: Self)
        ensures
            r.spec_channel_count() == channel_count,
            r.same_but_channel_count(self),
    {
        Self { channel_count, ..self }
    }

    /// Largest full-scale range the AD7718 supports is `Range::Range2_56V`; inputs above
    /// that (relative to the reference) saturate whichever range is selected here.
    pub fn with_range(self, range: Range) -> (r: Self)
        ensures
            r.spec_range() == range,
            r.same_chip_setup(self),
            r.spec_coding() == self.spec_coding(),
            r.spec_update_rate() == self.spec_update_rate(),
    {
        Self { range, ..self }
    }

    pub fn with_coding(self, coding: Coding) -> (r: Self)
        ensures
            r.spec_coding() == coding,
            r.same_chip_setup(self),
            r.spec_range() == self.spec_range(),
            r.spec_update_rate() == self.spec_update_rate(),
    {
        Self { coding, ..self }
    }

    /// Sets the conversion rate in Hz, rounded to the nearest one the filter supports. Slower
    /// rates average over a longer window and so resolve
    /// far finer steps; the fastest one leaves only around 11 noise-free bits.
    pub fn with_update_rate(self, update_rate: u32) -> (r: Self)
        ensures
            r.spec_update_rate() == update_rate,
            r.same_chip_setup(self),
            r.spec_range() == self.spec_range(),
            r.spec_coding() == self.spec_coding(),
    {
        Self { update_rate, ..self }
    }

    pub fn channel_count(&self) -> (r: ChannelCount)
        ensures
            r == self.spec_channel_count(),
    {
        self.channel_count
    }

    pub fn chopping(&self) -> (r: bool)
        ensures
            r == self.spec_chopping(),
    {
        self.chopping
    }

    pub fn coding(&self) -> (r: Coding)
        ensures
            r == self.spec_coding(),
    {
        self.coding
    }

    pub fn range(&self) -> (r: Range)
        ensures
            r == self.spec_range(),
    {
        self.range
    }

    /// The filter register for the requested rate: the word whose rate is nearest it.
    pub fn filter_register(&self) -> (r: Filter)
        ensures
            r@ == word_for_rate(self.spec_update_rate(), self.spec_chopping()),
            forall|word: int|
                min_word(self.spec_chopping()) <= word <= max_word(self.spec_chopping())
                    ==> rate_distance(r@ as int, self.spec_update_rate(), self.spec_chopping())
                    <= #[trigger] rate_distance(word, self.spec_update_rate(), self.spec_chopping()),
    {
        Filter::from_update_rate(self.update_rate, self.chopping)
    }

    /// Conversion rate the chips actually run at, after rounding to the filter's steps.
    pub fn filter_update_rate(&self) -> (r: u32)
        ensures
            r == rate_of_word(
                word_for_rate(self.spec_update_rate(), self.spec_chopping()) as u32,
                self.spec_chopping(),
            ),
    {
        let filter = self.filter_register();
        filter.update_rate(self.chopping)
    }

    /// The control register converting input `channel` (counted from zero) against AINCOM,
    /// with the configured coding and range.
    pub fn control_register(&self, channel: u8) -> (r: Result<Control, AdcChainError>)
        ensures
            r is Ok <==> channel < self.spec_channel_count().spec_count(),
            r matches Err(e) ==> e == (AdcChainError::InvalidChannel { chip: 0, channel }),
            r matches Ok(control) ==> {
                &&& control.spec_channel_configuration() == ChannelConfiguration::spec_single_ended(
                    channel,
                    self.spec_channel_count(),
                )
                &&& control.spec_coding() == self.spec_coding()
                &&& control.spec_range() == self.spec_range()
                &&& control@ < 256
            },
    {
        let channel_configuration = match ChannelConfiguration::single_ended(
            channel,
            self.channel_count,
        ) {
            Some(configuration) => configuration,
            None => {
                return Err(AdcChainError::InvalidChannel { chip: 0, channel });
            },
        };

        let mut control = Control::zero();
        proof {
            lemma_field_stays_in_byte(control@, 4, 4, channel_configuration.spec_bits() as u32);
        }
        control.set_channel_configuration(channel_configuration);
        proof {
            lemma_field_stays_in_byte(control@, 3, 1, self.coding.spec_bits() as u32);
        }
        control.set_coding(self.coding);
        proof {
            lemma_field_stays_in_byte(control@, 0, 3, self.range.spec_bits() as u32);
        }
        control.set_range(self.range);

        Ok(control)
    }

    /// The mode register running `adc_mode` with the configured chip setup.
    pub fn mode_register(&self, adc_mode: AdcMode) -> (r: Mode)
        ensures
            r.spec_chopping() == self.spec_chopping(),
            r.spec_negative_buffer() == self.spec_negative_buffer(),
            r.spec_reference() == self.spec_reference(),
            r.spec_channel_count() == self.spec_channel_count(),
            r.spec_oscillator_power_down() == self.spec_oscillator_power_down(),
            r.spec_adc_mode() == adc_mode,
            r@ < 256,
    {
        let mut mode = Mode::zero();
        proof {
            lemma_field_stays_in_byte(mode@, 7, 1, if self.chopping { 0 } else { 1 });
        }
        mode.set_chopping(self.chopping);
        proof {
            lemma_field_stays_in_byte(mode@, 6, 1, if self.negative_buffer { 1 } else { 0 });
        }
        mode.set_negative_buffer(self.negative_buffer);
        proof {
            lemma_field_stays_in_byte(mode@, 5, 1, self.reference.spec_bits() as u32);
        }
        mode.set_reference(self.reference);
        proof {
            lemma_field_stays_in_byte(mode@, 4, 1, self.channel_count.spec_bits() as u32);
        }
        mode.set_channel_count(self.channel_count);
        proof {
            lemma_field_stays_in_byte(mode@, 3, 1, if self.oscillator_power_down { 1 } else { 0 });
        }
        mode.set_oscillator_power_down(self.oscillator_power_down);
        proof {
            lemma_field_stays_in_byte(mode@, 0, 3, adc_mode.spec_bits() as u32);
        }
        mode.set_adc_mode(adc_mode);
        mode
    }

    /// How many inputs a calibration has to go through: calibration registers are shared
    /// round robin across the single-ended inputs, so the first half of them covers every
    /// register (see `lemma_half_the_inputs_calibrate_all`).
    pub fn calibration_channels(&self) -> (r: u8)
        ensures
            r == self.spec_channel_count().spec_count() / 2,
    {
        self.channel_count.count() / 2
    }

    /// The input a continuous capture converts after `channel`, wrapping around after the
    /// last one.
    pub fn next_channel(&self, channel: u8) -> (r: u8)
        requires
            channel < u8::MAX,
        ensures
            r == if channel + 1 < self.spec_channel_count().spec_count() {
                channel + 1
            } else {
                0
            },
            r < self.spec_channel_count().spec_count(),
    {
        if channel + 1 < self.channel_count.count() {
            channel + 1
        } else {
            0
        }
    }
}

impl Default for AdcChainConfig {
    /// Single-ended, unipolar conversions over the full 2.56 V range on eight inputs, at the
    /// fastest rate the filter allows without chopping.
    fn default() -> (r: Self)
        ensures
            !r.spec_chopping(),
            !r.spec_negative_buffer(),
            r.spec_reference() == Reference::RefIn1,
            r.spec_channel_count() == ChannelCount::Eight,
            !r.spec_oscillator_power_down(),
            r.spec_coding() == Coding::Unipolar,
            r.spec_range() == Range::Range2_56V,
            r.spec_update_rate() == 1365,
    {
        let chopping = false;
        let update_rate = Filter::best_speed(chopping).update_rate(chopping);
        assert(32768int / 24 == 1365);

        Self {
            chopping,
            negative_buffer: false,
            reference: Reference::RefIn1,
            channel_count: ChannelCount::Eight,
            oscillator_power_down: false,
            coding: Coding::Unipolar,
            range: Range::Range2_56V,
            update_rate,
        }
    }
}

/// The communication register byte announcing `operation` on the register at `address`.
pub fn control_byte(operation: RegisterOperation, address: u8) -> (r: u8)
    ensures
        r == communication_byte(operation, address),
        r & 0x80 == 0,
{
    let op = operation.bits();
    proof {
        assert(((op << 6u8) | (address & 0x0f)) & 0x80 == 0) by (bit_vector)
            requires
                op <= 1,
        ;
    }
    (op << 6) | (address & 0x0f)
}

/// Byte `index` (most significant first) of a `width`-byte register holding `bits`.
pub open spec fn register_byte(bits: u32, width: usize, index: int) -> u8 {
    (bits >> ((8 * (width - 1 - index)) as u32)) as u8
}

/// The bytes of a `width`-byte register holding `bits`, most significant first.
pub open spec fn register_bytes(bits: u32, width: usize) -> Seq<u8> {
    Seq::new(width as nat, |index: int| register_byte(bits, width, index))
}

/// The value of big-endian `bytes`, as shifted into a `u32`.
pub open spec fn big_endian_value(bytes: Seq<u8>) -> u32
    decreases bytes.len(),
{
    if bytes.len() == 0 {
        0
    } else {
        (big_endian_value(bytes.drop_last()) << 8u32) | (bytes.last() as u32)
    }
}

/// The transfer writing `bits` to the `width`-byte register at `address`: its communication
/// byte, then the register's bytes, most significant first. Only the first `1 + width`
/// bytes are sent.
pub fn write_frame(address: u8, bits: u32, width: usize) -> (r: [u8; FRAME_LENGTH])
    requires
        1 <= width <= MAX_REGISTER_WIDTH,
    ensures
        r@[0] == communication_byte(RegisterOperation::Write, address),
        r@.subrange(1, 1 + width as int) == register_bytes(bits, width),
{
    let mut frame = [0u8; FRAME_LENGTH];
    frame[0] = control_byte(RegisterOperation::Write, address);
    let mut i: usize = 0;
    while i < width
        invariant
            1 <= width <= MAX_REGISTER_WIDTH,
            i <= width,
            frame@.len() == FRAME_LENGTH,
            frame@[0] == communication_byte(RegisterOperation::Write, address),
            forall|j: int| 0 <= j < i ==> frame@[1 + j] == register_byte(bits, width, j),
        decreases width - i,
    {
        frame[1 + i] = (bits >> (8 * (width - 1 - i)) as u32) as u8;
        i += 1;
    }
    assert(frame@.subrange(1, 1 + width as int) =~= register_bytes(bits, width));
    frame
}

/// The transfer reading the register at `address`: its communication byte, then zeros to
/// clock the register's bytes in with.
pub fn read_frame(address: u8) -> (r: [u8; FRAME_LENGTH])
    ensures
        r@[0] == communication_byte(RegisterOperation::Read, address),
        r@[1] == 0 && r@[2] == 0 && r@[3] == 0,
{
    let mut frame = [0u8; FRAME_LENGTH];
    frame[0] = control_byte(RegisterOperation::Read, address);
    frame
}

/// The register value clocked in as `bytes`, most significant first.
pub fn register_value(bytes: &[u8]) -> (r: u32)
    ensures
        r == big_endian_value(bytes@),
{
    let mut bits: u32 = 0;
    let mut i: usize = 0;
    while i < bytes.len()
        invariant
            i <= bytes@.len(),
            bits == big_endian_value(bytes@.subrange(0, i as int)),
        decreases bytes.len() - i,
    {
        assert(bytes@.subrange(0, i + 1).drop_last() =~= bytes@.subrange(0, i as int));
        bits = (bits << 8) | bytes[i] as u32;
        i += 1;
    }
    assert(bytes@.subrange(0, bytes@.len() as int) =~= bytes@);
    bits
}

/// Reading back what was written gives the register's value: for every width the chain
/// uses, the bytes a write sends decode to the value written, as long as it fits the width.
pub proof fn lemma_register_bytes_round_trip(bits: u32, width: usize)
    requires
        1 <= width <= MAX_REGISTER_WIDTH,
        width == 1 ==> bits < 0x100,
        width == 2 ==> bits < 0x1_0000,
        width == 3 ==> bits < 0x100_0000,
    ensures
        big_endian_value(register_bytes(bits, width)) == bits,
{
    let bytes = register_bytes(bits, width);
    reveal_with_fuel(big_endian_value, 4);
    if width == 1 {
        assert(bytes.drop_last() =~= Seq::<u8>::empty());
        assert((0u32 << 8u32) | ((bits >> 0u32) as u8 as u32) == bits) by (bit_vector)
            requires
                bits < 0x100,
        ;
    } else if width == 2 {
        assert(bytes.drop_last().drop_last() =~= Seq::<u8>::empty());
        assert((((0u32 << 8u32) | ((bits >> 8u32) as u8 as u32)) << 8u32) | ((bits >> 0u32) as u8
            as u32) == bits) by (bit_vector)
            requires
                bits < 0x1_0000,
        ;
    } else {
        assert(bytes.drop_last().drop_last().drop_last() =~= Seq::<u8>::empty());
        assert((((((0u32 << 8u32) | ((bits >> 16u32) as u8 as u32)) << 8u32) | ((bits >> 8u32) as u8
            as u32)) << 8u32) | ((bits >> 0u32) as u8 as u32) == bits) by (bit_vector)
            requires
                bits < 0x100_0000,
        ;
    }
}

/// Checks that chip `chip` identified itself as an AD7718 in its ID register.
pub fn check_id(chip: u8, id: Id) -> (r: Result<(), AdcChainError>)
    ensures
        r is Ok <==> id@ & 0xf0 == AD7718_ID,
        r matches Err(e) ==> e == (AdcChainError::IdMismatch {
            chip,
            expected_id: AD7718_ID,
            actual_id: id@ & 0xf0,
        }),
{
    let actual_id = id.chip_id();
    if actual_id != AD7718_ID {
        return Err(AdcChainError::IdMismatch { chip, expected_id: AD7718_ID, actual_id });
    }
    Ok(())
}

/// Which input every chip converts next while a continuous capture runs, `None` while none
/// does.
pub struct ContinuousCapture<const N: usize> {
    channels: Option<[u8; N]>,
}

impl<const N: usize> ContinuousCapture<N> {
    pub closed spec fn spec_channels(self) -> Option<Seq<u8>> {
        match self.channels {
            Some(channels) => Some(channels@),
            None => None,
        }
    }

    /// Every chip's input exists in a mode with `count` inputs.
    pub open spec fn valid(self, count: u8) -> bool {
        self.spec_channels() matches Some(channels) ==> channels.len() == N && forall|chip: int|
            0 <= chip < N ==> #[trigger] channels[chip] < count
    }

    /// No capture running.
    pub fn new() -> (r: Self)
        ensures
            r.spec_channels() is None,
    {
        ContinuousCapture { channels: None }
    }

    /// A capture starting at input 0 on every chip.
    pub fn start(&mut self)
        ensures
            final(self).spec_channels() == Some(Seq::new(N as nat, |chip: int| 0u8)),
    {
        self.channels = Some([0u8; N]);
        assert(self.spec_channels()->0 =~= Seq::new(N as nat, |chip: int| 0u8));
    }

    pub fn stop(&mut self)
        ensures
            final(self).spec_channels() is None,
    {
        self.channels = None;
    }

    pub fn active(&self) -> (r: bool)
        ensures
            r == self.spec_channels() is Some,
    {
        self.channels.is_some()
    }

    /// The input chip `chip` is converting, or the error telling that no capture runs.
    pub fn channel(&self, chip: usize) -> (r: Result<u8, AdcChainError>)
        requires
            chip < N,
        ensures
            match self.spec_channels() {
                Some(channels) => r == Ok::<u8, AdcChainError>(channels[chip as int]),
                None => r == Err::<u8, AdcChainError>(AdcChainError::ContinuousMeasurementNotRunning),
            },
    {
        match self.channels {
            Some(channels) => Ok(channels[chip]),
            None => Err(AdcChainError::ContinuousMeasurementNotRunning),
        }
    }

    /// Records that chip `chip` moved on to input `channel`.
    pub fn set_channel(&mut self, chip: usize, channel: u8)
        requires
            chip < N,
        ensures
            match old(self).spec_channels() {
                Some(channels) => final(self).spec_channels() == Some(channels.update(chip as int, channel)),
                None => final(self).spec_channels() is None,
            },
    {
        if let Some(channels) = &mut self.channels {
            channels[chip] = channel;
        }
    }
}

} // verus!
