//! The mode register: chopping, reference and channel count selection, and the conversion
//! or calibration the chip is to run.

use vstd::prelude::*;

use super::{
    bit_of, disjoint, field_of, lemma_field_frame, lemma_small_masks, lemma_write_bit,
    lemma_write_small_field, valid_field, with_bit, with_field, Register, RegisterValue,
};

verus! {

/// Reference input the conversions are ratiometric to.
#[derive(Clone, Copy, Debug, PartialEq, Eq, Structural)]
pub enum Reference {
    RefIn1,
    RefIn2,
}

impl Reference {
    /// Value of the variant in its register field.
    pub open spec fn spec_bits(self) -> u8 {
        match self {
            Reference::RefIn1 => 0,
            Reference::RefIn2 => 1,
        }
    }

    /// The variant a field value encodes: every value up to 1 names one.
    pub open spec fn spec_from_bits(bits: u8) -> Self {
        if bits == 0 {
            Reference::RefIn1
        } else {
            Reference::RefIn2
        }
    }

    pub fn bits(self) -> (r: u8)
        ensures
            r == self.spec_bits(),
            r <= 1,
            Self::spec_from_bits(r) == self,
    {
        match self {
            Reference::RefIn1 => 0,
            Reference::RefIn2 => 1,
        }
    }

    pub fn from_bits(bits: u8) -> (r: Self)
        requires
            bits <= 1,
        ensures
            r == Self::spec_from_bits(bits),
            r.spec_bits() == bits,
    {
        if bits == 0 {
            Reference::RefIn1
        } else {
            Reference::RefIn2
        }
    }
}

/// Input multiplexer mode: eight or ten analog inputs.
#[derive(Clone, Copy, Debug, PartialEq, Eq, Structural)]
pub enum ChannelCount {
    Eight,
    Ten,
}

impl ChannelCount {
    /// Value of the variant in its register field.
    pub open spec fn spec_bits(self) -> u8 {
        match self {
            ChannelCount::Eight => 0,
            ChannelCount::Ten => 1,
        }
    }

    /// The variant a field value encodes: every value up to 1 names one.
    pub open spec fn spec_from_bits(bits: u8) -> Self {
        if bits == 0 {
            ChannelCount::Eight
        } else {
            ChannelCount::Ten
        }
    }

    pub fn bits(self) -> (r: u8)
        ensures
            r == self.spec_bits(),
            r <= 1,
            Self::spec_from_bits(r) == self,
    {
        match self {
            ChannelCount::Eight => 0,
            ChannelCount::Ten => 1,
        }
    }

    pub fn from_bits(bits: u8) -> (r: Self)
        requires
            bits <= 1,
        ensures
            r == Self::spec_from_bits(bits),
            r.spec_bits() == bits,
    {
        if bits == 0 {
            ChannelCount::Eight
        } else {
            ChannelCount::Ten
        }
    }
}

/// Operating mode of the converter.
#[derive(Clone, Copy, Debug, PartialEq, Eq, Structural)]
pub enum AdcMode {
    PowerDown,
    Idle,
    SingleConversion,
    ContinuousConversion,
    InternalZeroScaleCalibration,
    InternalFullScaleCalibration,
    SystemZeroScaleCalibration,
    SystemFullScaleCalibration,
}

impl AdcMode {
    /// Value of the variant in its register field.
    pub open spec fn spec_bits(self) -> u8 {
        match self {
            AdcMode::PowerDown => 0,
            AdcMode::Idle => 1,
            AdcMode::SingleConversion => 2,
            AdcMode::ContinuousConversion => 3,
            AdcMode::InternalZeroScaleCalibration => 4,
            AdcMode::InternalFullScaleCalibration => 5,
            AdcMode::SystemZeroScaleCalibration => 6,
            AdcMode::SystemFullScaleCalibration => 7,
        }
    }

    /// The variant a field value encodes: every value up to 7 names one.
    pub open spec fn spec_from_bits(bits: u8) -> Self {
        if bits == 0 {
            AdcMode::PowerDown
        } else if bits == 1 {
            AdcMode::Idle
        } else if bits == 2 {
            AdcMode::SingleConversion
        } else if bits == 3 {
            AdcMode::ContinuousConversion
        } else if bits == 4 {
            AdcMode::InternalZeroScaleCalibration
        } else if bits == 5 {
            AdcMode::InternalFullScaleCalibration
        } else if bits == 6 {
            AdcMode::SystemZeroScaleCalibration
        } else {
            AdcMode::SystemFullScaleCalibration
        }
    }

    pub fn bits(self) -> (r: u8)
        ensures
            r == self.spec_bits(),
            r <= 7,
            Self::spec_from_bits(r) == self,
    {
        match self {
            AdcMode::PowerDown => 0,
            AdcMode::Idle => 1,
            AdcMode::SingleConversion => 2,
            AdcMode::ContinuousConversion => 3,
            AdcMode::InternalZeroScaleCalibration => 4,
            AdcMode::InternalFullScaleCalibration => 5,
            AdcMode::SystemZeroScaleCalibration => 6,
            AdcMode::SystemFullScaleCalibration => 7,
        }
    }

    pub fn from_bits(bits: u8) -> (r: Self)
        requires
            bits <= 7,
        ensures
            r == Self::spec_from_bits(bits),
            r.spec_bits() == bits,
    {
        if bits == 0 {
            AdcMode::PowerDown
        } else if bits == 1 {
            AdcMode::Idle
        } else if bits == 2 {
            AdcMode::SingleConversion
        } else if bits == 3 {
            AdcMode::ContinuousConversion
        } else if bits == 4 {
            AdcMode::InternalZeroScaleCalibration
        } else if bits == 5 {
            AdcMode::InternalFullScaleCalibration
        } else if bits == 6 {
            AdcMode::SystemZeroScaleCalibration
        } else {
            AdcMode::SystemFullScaleCalibration
        }
    }
}

impl AdcMode {
    /// A calibration rather than a conversion or a power state.
    pub open spec fn is_calibration(self) -> bool {
        match self {
            AdcMode::InternalZeroScaleCalibration | AdcMode::InternalFullScaleCalibration
            | AdcMode::SystemZeroScaleCalibration | AdcMode::SystemFullScaleCalibration => true,
            _ => false,
        }
    }

    /// A calibration against the voltages on the inputs rather than internal ones.
    pub open spec fn is_system_calibration(self) -> bool {
        self == AdcMode::SystemZeroScaleCalibration || self == AdcMode::SystemFullScaleCalibration
    }

    /// A calibration of the full-scale point (gain) rather than the zero-scale point (offset).
    pub open spec fn is_full_scale_calibration(self) -> bool {
        self == AdcMode::InternalFullScaleCalibration || self == AdcMode::SystemFullScaleCalibration
    }

    /// A mode that converts.
    pub open spec fn converts(self) -> bool {
        self == AdcMode::SingleConversion || self == AdcMode::ContinuousConversion
    }

    /// A mode that keeps running rather than stopping: idle instead of powered down, converting
    /// continuously instead of once.
    pub open spec fn keeps_running(self) -> bool {
        self == AdcMode::Idle || self == AdcMode::ContinuousConversion
    }
}

/// The datasheet's MD2..MD0 code of every ADC mode: MD2 is set exactly for the calibrations;
/// in a calibration MD1 selects a system calibration and MD0 the full-scale point; otherwise
/// MD1 is set exactly for the converting modes and MD0 for those that keep running.
pub proof fn lemma_adc_mode_codes(mode: AdcMode)
    ensures
        mode.spec_bits() <= 7,
        mode.spec_bits() / 4 == 1 <==> mode.is_calibration(),
        mode.is_calibration() ==> ((mode.spec_bits() / 2) % 2 == 1 <==> mode.is_system_calibration()),
        mode.is_calibration() ==> (mode.spec_bits() % 2 == 1 <==> mode.is_full_scale_calibration()),
        !mode.is_calibration() ==> ((mode.spec_bits() / 2) % 2 == 1 <==> mode.converts()),
        !mode.is_calibration() ==> (mode.spec_bits() % 2 == 1 <==> mode.keeps_running()),
{
}

/// REFSEL selects the second reference input exactly when set.
pub proof fn lemma_reference_code(reference: Reference)
    ensures
        reference.spec_bits() == 1 <==> reference == Reference::RefIn2,
        reference.spec_bits() == 0 <==> reference == Reference::RefIn1,
{
}

/// The mode register (address 0x01, one byte).
#[derive(Clone, Copy)]
pub struct Mode(RegisterValue<0x01, 1>);

impl View for Mode {
    type V = u32;

    closed spec fn view(&self) -> u32 {
        self.0@
    }
}

impl Register for Mode {
    fn address() -> (r: u8)
        ensures
            r == 0x01,
    {
        RegisterValue::<0x01, 1>::address()
    }

    fn width() -> (r: usize)
        ensures
            r == 1,
    {
        RegisterValue::<0x01, 1>::width()
    }

    fn bits(&self) -> (r: u32)
        ensures
            r == self@,
    {
        self.0.bits()
    }

    fn from_bits(bits: u32) -> (r: Self)
        ensures
            r@ == bits,
    {
        Mode(RegisterValue::from_bits(bits))
    }
}

impl Mode {
    /// The register with every bit clear.
    pub fn new() -> (r: Self)
        ensures
            r@ == 0,
    {
        Mode(RegisterValue::zero())
    }

    /// Chopping, enabled while NCHOP (bit 7) is clear.
    pub open spec fn spec_chopping(self) -> bool {
        !bit_of(self@, 7)
    }

    /// NEGBUF (bit 6).
    pub open spec fn spec_negative_buffer(self) -> bool {
        bit_of(self@, 6)
    }

    /// REFSEL (bit 5).
    pub open spec fn spec_reference(self) -> Reference {
        Reference::spec_from_bits(field_of(self@, 5, 1) as u8)
    }

    /// CHCON (bit 4).
    pub open spec fn spec_channel_count(self) -> ChannelCount {
        ChannelCount::spec_from_bits(field_of(self@, 4, 1) as u8)
    }

    /// OSCPD (bit 3).
    pub open spec fn spec_oscillator_power_down(self) -> bool {
        bit_of(self@, 3)
    }

    /// MD2..MD0 (bits 2..0).
    pub open spec fn spec_adc_mode(self) -> AdcMode {
        AdcMode::spec_from_bits(field_of(self@, 0, 3) as u8)
    }

    pub fn chopping(&self) -> (r: bool)
        ensures
            r == self.spec_chopping(),
    {
        !self.0.bit(7)
    }

    pub fn set_chopping(&mut self, enabled: bool)
        ensures
            final(self)@ == with_bit(old(self)@, 7, !enabled),
            final(self).spec_chopping() == enabled,
            final(self).spec_negative_buffer() == old(self).spec_negative_buffer(),
            final(self).spec_reference() == old(self).spec_reference(),
            final(self).spec_channel_count() == old(self).spec_channel_count(),
            final(self).spec_oscillator_power_down() == old(self).spec_oscillator_power_down(),
            final(self).spec_adc_mode() == old(self).spec_adc_mode(),
    {
        proof {
            lemma_write_bit(self@, 7, !enabled);
            lemma_mode_frame(self@, 7, 1, if !enabled { 1 } else { 0 });
        }
        self.0.set_bit(7, !enabled);
    }

    pub fn negative_buffer(&self) -> (r: bool)
        ensures
            r == self.spec_negative_buffer(),
    {
        self.0.bit(6)
    }

    pub fn set_negative_buffer(&mut self, enabled: bool)
        ensures
            final(self)@ == with_bit(old(self)@, 6, enabled),
            final(self).spec_negative_buffer() == enabled,
            final(self).spec_chopping() == old(self).spec_chopping(),
            final(self).spec_reference() == old(self).spec_reference(),
            final(self).spec_channel_count() == old(self).spec_channel_count(),
            final(self).spec_oscillator_power_down() == old(self).spec_oscillator_power_down(),
            final(self).spec_adc_mode() == old(self).spec_adc_mode(),
    {
        proof {
            lemma_write_bit(self@, 6, enabled);
            lemma_mode_frame(self@, 6, 1, if enabled { 1 } else { 0 });
        }
        self.0.set_bit(6, enabled);
    }

    pub fn reference(&self) -> (r: Reference)
        ensures
            r == self.spec_reference(),
    {
        proof {
            lemma_small_masks();
        }
        Reference::from_bits(self.0.field(5, 1))
    }

    pub fn set_reference(&mut self, enabled: Reference)
        ensures
            final(self)@ == with_field(old(self)@, 5, 1, enabled.spec_bits() as u32),
            final(self).spec_reference() == enabled,
            final(self).spec_chopping() == old(self).spec_chopping(),
            final(self).spec_negative_buffer() == old(self).spec_negative_buffer(),
            final(self).spec_channel_count() == old(self).spec_channel_count(),
            final(self).spec_oscillator_power_down() == old(self).spec_oscillator_power_down(),
            final(self).spec_adc_mode() == old(self).spec_adc_mode(),
    {
        let bits = enabled.bits();
        proof {
            lemma_small_masks();
            lemma_write_small_field(self@, 5, 1, bits as u32);
            lemma_mode_frame(self@, 5, 1, bits as u32);
        }
        self.0.set_field(5, 1, bits);
    }

    pub fn channel_count(&self) -> (r: ChannelCount)
        ensures
            r == self.spec_channel_count(),
    {
        proof {
            lemma_small_masks();
        }
        ChannelCount::from_bits(self.0.field(4, 1))
    }

    pub fn set_channel_count(&mut self, enabled: ChannelCount)
        ensures
            final(self)@ == with_field(old(self)@, 4, 1, enabled.spec_bits() as u32),
            final(self).spec_channel_count() == enabled,
            final(self).spec_chopping() == old(self).spec_chopping(),
            final(self).spec_negative_buffer() == old(self).spec_negative_buffer(),
            final(self).spec_reference() == old(self).spec_reference(),
            final(self).spec_oscillator_power_down() == old(self).spec_oscillator_power_down(),
            final(self).spec_adc_mode() == old(self).spec_adc_mode(),
    {
        let bits = enabled.bits();
        proof {
            lemma_small_masks();
            lemma_write_small_field(self@, 4, 1, bits as u32);
            lemma_mode_frame(self@, 4, 1, bits as u32);
        }
        self.0.set_field(4, 1, bits);
    }

    pub fn oscillator_power_down(&self) -> (r: bool)
        ensures
            r == self.spec_oscillator_power_down(),
    {
        self.0.bit(3)
    }

    pub fn set_oscillator_power_down(&mut self, enabled: bool)
        ensures
            final(self)@ == with_bit(old(self)@, 3, enabled),
            final(self).spec_oscillator_power_down() == enabled,
            final(self).spec_chopping() == old(self).spec_chopping(),
            final(self).spec_negative_buffer() == old(self).spec_negative_buffer(),
            final(self).spec_reference() == old(self).spec_reference(),
            final(self).spec_channel_count() == old(self).spec_channel_count(),
            final(self).spec_adc_mode() == old(self).spec_adc_mode(),
    {
        proof {
            lemma_write_bit(self@, 3, enabled);
            lemma_mode_frame(self@, 3, 1, if enabled { 1 } else { 0 });
        }
        self.0.set_bit(3, enabled);
    }

    pub fn adc_mode(&self) -> (r: AdcMode)
        ensures
            r == self.spec_adc_mode(),
    {
        proof {
            lemma_small_masks();
        }
        AdcMode::from_bits(self.0.field(0, 3))
    }

    pub fn set_adc_mode(&mut self, enabled: AdcMode)
        ensures
            final(self)@ == with_field(old(self)@, 0, 3, enabled.spec_bits() as u32),
            final(self).spec_adc_mode() == enabled,
            final(self).spec_chopping() == old(self).spec_chopping(),
            final(self).spec_negative_buffer() == old(self).spec_negative_buffer(),
            final(self).spec_reference() == old(self).spec_reference(),
            final(self).spec_channel_count() == old(self).spec_channel_count(),
            final(self).spec_oscillator_power_down() == old(self).spec_oscillator_power_down(),
    {
        let bits = enabled.bits();
        proof {
            lemma_small_masks();
            lemma_write_small_field(self@, 0, 3, bits as u32);
            lemma_mode_frame(self@, 0, 3, bits as u32);
        }
        self.0.set_field(0, 3, bits);
    }
}

/// Writing one field of the mode register keeps every other field of it.
pub proof fn lemma_mode_frame(bits: u32, shift: u32, width: u32, value: u32)
    requires
        valid_field(shift, width),
    ensures
        disjoint(shift, width, 7, 1) ==> field_of(with_field(bits, shift, width, value), 7, 1)
            == field_of(bits, 7, 1),
        disjoint(shift, width, 6, 1) ==> field_of(with_field(bits, shift, width, value), 6, 1)
            == field_of(bits, 6, 1),
        disjoint(shift, width, 5, 1) ==> field_of(with_field(bits, shift, width, value), 5, 1)
            == field_of(bits, 5, 1),
        disjoint(shift, width, 4, 1) ==> field_of(with_field(bits, shift, width, value), 4, 1)
            == field_of(bits, 4, 1),
        disjoint(shift, width, 3, 1) ==> field_of(with_field(bits, shift, width, value), 3, 1)
            == field_of(bits, 3, 1),
        disjoint(shift, width, 0, 3) ==> field_of(with_field(bits, shift, width, value), 0, 3)
            == field_of(bits, 0, 3),
{
    if disjoint(shift, width, 7, 1) {
        lemma_field_frame(bits, shift, width, value, 7, 1);
    }
    if disjoint(shift, width, 6, 1) {
        lemma_field_frame(bits, shift, width, value, 6, 1);
    }
    if disjoint(shift, width, 5, 1) {
        lemma_field_frame(bits, shift, width, value, 5, 1);
    }
    if disjoint(shift, width, 4, 1) {
        lemma_field_frame(bits, shift, width, value, 4, 1);
    }
    if disjoint(shift, width, 3, 1) {
        lemma_field_frame(bits, shift, width, value, 3, 1);
    }
    if disjoint(shift, width, 0, 3) {
        lemma_field_frame(bits, shift, width, value, 0, 3);
    }
}

} // verus!
