//! The mode register as the chain driver uses it, and the channel counts it selects.

use vstd::prelude::*;

use crate::adc::registers::mode::lemma_mode_frame;
use crate::adc::registers::{
    bit_of, field_of, lemma_small_masks, lemma_write_bit, lemma_write_small_field, with_bit,
    with_field, RegisterValue,
};

pub use crate::adc::registers::mode::{AdcMode, ChannelCount, Reference};

verus! {

impl ChannelCount {
    /// Number of analog inputs the mode converts.
    pub open spec fn spec_count(self) -> u8 {
        match self {
            ChannelCount::Eight => 8,
            ChannelCount::Ten => 10,
        }
    }

    pub fn new(count: u8) -> (r: Option<Self>)
        ensures
            r is Some <==> (count == 8 || count == 10),
            r matches Some(c) ==> c.spec_count() == count,
    {
        match count {
            8 => Some(Self::Eight),
            10 => Some(Self::Ten),
            _ => None,
        }
    }

    pub fn count(self) -> (r: u8)
        ensures
            r == self.spec_count(),
            r == 8 || r == 10,
    {
        match self {
            Self::Eight => 8,
            Self::Ten => 10,
        }
    }
}

/// CHCON adds the two inputs AIN9 and AIN10 exactly when set.
pub proof fn lemma_channel_count_code(count: ChannelCount)
    ensures
        count.spec_count() == 8 + 2 * count.spec_bits(),
        count.spec_bits() <= 1,
{
}

/// The mode register (address 0x01, one byte).
pub type Mode = RegisterValue<0x01, 1>;

impl Mode {
    /// Chopping, enabled while NCHOP (bit 7) is clear.
    pub open spec fn spec_chopping(self) -> bool {
        !bit_of(self@, 7)
    }

    /// NEGBUF (bit 6).
    pub open spec fn spec_negative_buffer(self) -> bool {
        bit_of(self@, 6)
    }

    /// REFSEL (bit 5).
    pub open spec fn spec_reference(self) -> Reference {
        Reference::spec_from_bits(field_of(self@, 5, 1) as u8)
    }

    /// CHCON (bit 4).
    pub open spec fn spec_channel_count(self) -> ChannelCount {
        ChannelCount::spec_from_bits(field_of(self@, 4, 1) as u8)
    }

    /// OSCPD (bit 3).
    pub open spec fn spec_oscillator_power_down(self) -> bool {
        bit_of(self@, 3)
    }

    /// MD2..MD0 (bits 2..0).
    pub open spec fn spec_adc_mode(self) -> AdcMode {
        AdcMode::spec_from_bits(field_of(self@, 0, 3) as u8)
    }

    pub fn chopping(&self) -> (r: bool)
        ensures
            r == self.spec_chopping(),
    {
        self.bit_active_low(7)
    }

    pub fn set_chopping(&mut self, value: bool)
        ensures
            final(self)@ == with_bit(old(self)@, 7, !value),
            final(self).spec_chopping() == value,
            final(self).spec_negative_buffer() == old(self).spec_negative_buffer(),
            final(self).spec_reference() == old(self).spec_reference(),
            final(self).spec_channel_count() == old(self).spec_channel_count(),
            final(self).spec_oscillator_power_down() == old(self).spec_oscillator_power_down(),
            final(self).spec_adc_mode() == old(self).spec_adc_mode(),
    {
        proof {
            lemma_write_bit(self@, 7, !value);
            lemma_mode_frame(self@, 7, 1, if !value { 1 } else { 0 });
        }
        self.set_bit_active_low(7, value);
    }

    pub fn negative_buffer(&self) -> (r: bool)
        ensures
            r == self.spec_negative_buffer(),
    {
        self.bit(6)
    }

    pub fn set_negative_buffer(&mut self, value: bool)
        ensures
            final(self)@ == with_bit(old(self)@, 6, value),
            final(self).spec_negative_buffer() == value,
            final(self).spec_chopping() == old(self).spec_chopping(),
            final(self).spec_reference() == old(self).spec_reference(),
            final(self).spec_channel_count() == old(self).spec_channel_count(),
            final(self).spec_oscillator_power_down() == old(self).spec_oscillator_power_down(),
            final(self).spec_adc_mode() == old(self).spec_adc_mode(),
    {
        proof {
            lemma_write_bit(self@, 6, value);
            lemma_mode_frame(self@, 6, 1, if value { 1 } else { 0 });
        }
        self.set_bit(6, value);
    }

    pub fn reference(&self) -> (r: Reference)
        ensures
            r == self.spec_reference(),
    {
        proof {
            lemma_small_masks();
        }
        Reference::from_bits(self.field(5, 1))
    }

    pub fn set_reference(&mut self, value: Reference)
        ensures
            final(self)@ == with_field(old(self)@, 5, 1, value.spec_bits() as u32),
            final(self).spec_reference() == value,
            final(self).spec_chopping() == old(self).spec_chopping(),
            final(self).spec_negative_buffer() == old(self).spec_negative_buffer(),
            final(self).spec_channel_count() == old(self).spec_channel_count(),
            final(self).spec_oscillator_power_down() == old(self).spec_oscillator_power_down(),
            final(self).spec_adc_mode() == old(self).spec_adc_mode(),
    {
        let bits = value.bits();
        proof {
            lemma_small_masks();
            lemma_write_small_field(self@, 5, 1, bits as u32);
            lemma_mode_frame(self@, 5, 1, bits as u32);
        }
        self.set_field(5, 1, bits);
    }

    pub fn channel_count(&self) -> (r: ChannelCount)
        ensures
            r == self.spec_channel_count(),
    {
        proof {
            lemma_small_masks();
        }
        ChannelCount::from_bits(self.field(4, 1))
    }

    pub fn set_channel_count(&mut self, value: ChannelCount)
        ensures
            final(self)@ == with_field(old(self)@, 4, 1, value.spec_bits() as u32),
            final(self).spec_channel_count() == value,
            final(self).spec_chopping() == old(self).spec_chopping(),
            final(self).spec_negative_buffer() == old(self).spec_negative_buffer(),
            final(self).spec_reference() == old(self).spec_reference(),
            final(self).spec_oscillator_power_down() == old(self).spec_oscillator_power_down(),
            final(self).spec_adc_mode() == old(self).spec_adc_mode(),
    {
        let bits = value.bits();
        proof {
            lemma_small_masks();
            lemma_write_small_field(self@, 4, 1, bits as u32);
            lemma_mode_frame(self@, 4, 1, bits as u32);
        }
        self.set_field(4, 1, bits);
    }

    pub fn oscillator_power_down(&self) -> (r: bool)
        ensures
            r == self.spec_oscillator_power_down(),
    {
        self.bit(3)
    }

    pub fn set_oscillator_power_down(&mut self, value: bool)
        ensures
            final(self)@ == with_bit(old(self)@, 3, value),
            final(self).spec_oscillator_power_down() == value,
            final(self).spec_chopping() == old(self).spec_chopping(),
            final(self).spec_negative_buffer() == old(self).spec_negative_buffer(),
            final(self).spec_reference() == old(self).spec_reference(),
            final(self).spec_channel_count() == old(self).spec_channel_count(),
            final(self).spec_adc_mode() == old(self).spec_adc_mode(),
    {
        proof {
            lemma_write_bit(self@, 3, value);
            lemma_mode_frame(self@, 3, 1, if value { 1 } else { 0 });
        }
        self.set_bit(3, value);
    }

    pub fn adc_mode(&self) -> (r: AdcMode)
        ensures
            r == self.spec_adc_mode(),
    {
        proof {
            lemma_small_masks();
        }
        AdcMode::from_bits(self.field(0, 3))
    }

    pub fn set_adc_mode(&mut self, value: AdcMode)
        ensures
            final(self)@ == with_field(old(self)@, 0, 3, value.spec_bits() as u32),
            final(self).spec_adc_mode() == value,
            final(self).spec_chopping() == old(self).spec_chopping(),
            final(self).spec_negative_buffer() == old(self).spec_negative_buffer(),
            final(self).spec_reference() == old(self).spec_reference(),
            final(self).spec_channel_count() == old(self).spec_channel_count(),
            final(self).spec_oscillator_power_down() == old(self).spec_oscillator_power_down(),
    {
        let bits = value.bits();
        proof {
            lemma_small_masks();
            lemma_write_small_field(self@, 0, 3, bits as u32);
            lemma_mode_frame(self@, 0, 3, bits as u32);
        }
        self.set_field(0, 3, bits);
    }
}

} // verus!
