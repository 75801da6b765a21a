//! The control register: which inputs are converted, with which coding and input range.

use vstd::prelude::*;

use super::mode::ChannelCount;
use super::{
    disjoint, field_of, lemma_field_frame, lemma_small_masks, lemma_write_small_field, valid_field,
    with_field, RegisterValue,
};

verus! {

/// Input channel selection (CH3..CH0).
#[allow(non_camel_case_types)]
#[derive(Clone, Copy, Debug, PartialEq, Eq, Structural)]
pub enum ChannelConfiguration {
    Single1,
    Single2,
    Single3,
    Single4,
    Single5,
    Single6,
    Single7,
    Single8,
    Diff1_2,
    Diff3_4,
    Diff5_6,
    Diff7_8,
    Diff9_10,
    AInCom,
    RefIn_Single9,
    Open_Single10,
}

impl ChannelConfiguration {
    /// Value of the variant in its register field.
    pub open spec fn spec_bits(self) -> u8 {
        match self {
            ChannelConfiguration::Single1 => 0,
            ChannelConfiguration::Single2 => 1,
            ChannelConfiguration::Single3 => 2,
            ChannelConfiguration::Single4 => 3,
            ChannelConfiguration::Single5 => 4,
            ChannelConfiguration::Single6 => 5,
            ChannelConfiguration::Single7 => 6,
            ChannelConfiguration::Single8 => 7,
            ChannelConfiguration::Diff1_2 => 8,
            ChannelConfiguration::Diff3_4 => 9,
            ChannelConfiguration::Diff5_6 => 10,
            ChannelConfiguration::Diff7_8 => 11,
            ChannelConfiguration::Diff9_10 => 12,
            ChannelConfiguration::AInCom => 13,
            ChannelConfiguration::RefIn_Single9 => 14,
            ChannelConfiguration::Open_Single10 => 15,
        }
    }

    /// The variant a field value encodes: every value up to 15 names one.
    pub open spec fn spec_from_bits(bits: u8) -> Self {
        if bits == 0 {
            ChannelConfiguration::Single1
        } else if bits == 1 {
            ChannelConfiguration::Single2
        } else if bits == 2 {
            ChannelConfiguration::Single3
        } else if bits == 3 {
            ChannelConfiguration::Single4
        } else if bits == 4 {
            ChannelConfiguration::Single5
        } else if bits == 5 {
            ChannelConfiguration::Single6
        } else if bits == 6 {
            ChannelConfiguration::Single7
        } else if bits == 7 {
            ChannelConfiguration::Single8
        } else if bits == 8 {
            ChannelConfiguration::Diff1_2
        } else if bits == 9 {
            ChannelConfiguration::Diff3_4
        } else if bits == 10 {
            ChannelConfiguration::Diff5_6
        } else if bits == 11 {
            ChannelConfiguration::Diff7_8
        } else if bits == 12 {
            ChannelConfiguration::Diff9_10
        } else if bits == 13 {
            ChannelConfiguration::AInCom
        } else if bits == 14 {
            ChannelConfiguration::RefIn_Single9
        } else {
            ChannelConfiguration::Open_Single10
        }
    }

    pub fn bits(self) -> (r: u8)
        ensures
            r == self.spec_bits(),
            r <= 15,
            Self::spec_from_bits(r) == self,
    {
        match self {
            ChannelConfiguration::Single1 => 0,
            ChannelConfiguration::Single2 => 1,
            ChannelConfiguration::Single3 => 2,
            ChannelConfiguration::Single4 => 3,
            ChannelConfiguration::Single5 => 4,
            ChannelConfiguration::Single6 => 5,
            ChannelConfiguration::Single7 => 6,
            ChannelConfiguration::Single8 => 7,
            ChannelConfiguration::Diff1_2 => 8,
            ChannelConfiguration::Diff3_4 => 9,
            ChannelConfiguration::Diff5_6 => 10,
            ChannelConfiguration::Diff7_8 => 11,
            ChannelConfiguration::Diff9_10 => 12,
            ChannelConfiguration::AInCom => 13,
            ChannelConfiguration::RefIn_Single9 => 14,
            ChannelConfiguration::Open_Single10 => 15,
        }
    }

    pub fn from_bits(bits: u8) -> (r: Self)
        requires
            bits <= 15,
        ensures
            r == Self::spec_from_bits(bits),
            r.spec_bits() == bits,
    {
        if bits == 0 {
            ChannelConfiguration::Single1
        } else if bits == 1 {
            ChannelConfiguration::Single2
        } else if bits == 2 {
            ChannelConfiguration::Single3
        } else if bits == 3 {
            ChannelConfiguration::Single4
        } else if bits == 4 {
            ChannelConfiguration::Single5
        } else if bits == 5 {
            ChannelConfiguration::Single6
        } else if bits == 6 {
            ChannelConfiguration::Single7
        } else if bits == 7 {
            ChannelConfiguration::Single8
        } else if bits == 8 {
            ChannelConfiguration::Diff1_2
        } else if bits == 9 {
            ChannelConfiguration::Diff3_4
        } else if bits == 10 {
            ChannelConfiguration::Diff5_6
        } else if bits == 11 {
            ChannelConfiguration::Diff7_8
        } else if bits == 12 {
            ChannelConfiguration::Diff9_10
        } else if bits == 13 {
            ChannelConfiguration::AInCom
        } else if bits == 14 {
            ChannelConfiguration::RefIn_Single9
        } else {
            ChannelConfiguration::Open_Single10
        }
    }
}

/// One side of the input pair a channel configuration converts.
#[derive(Clone, Copy, Debug, PartialEq, Eq, Structural)]
pub enum Input {
    /// Analog input `AIN<n>`.
    AIn(u8),
    AInCom,
    RefInPositive,
    RefInNegative,
    Open,
}

/// Output coding of a conversion (U/B bit).
#[derive(Clone, Copy, Debug, PartialEq, Eq, Structural)]
pub enum Coding {
    Bipolar,
    Unipolar,
}

impl Coding {
    /// Value of the variant in its register field.
    pub open spec fn spec_bits(self) -> u8 {
        match self {
            Coding::Bipolar => 0,
            Coding::Unipolar => 1,
        }
    }

    /// The variant a field value encodes: every value up to 1 names one.
    pub open spec fn spec_from_bits(bits: u8) -> Self {
        if bits == 0 {
            Coding::Bipolar
        } else {
            Coding::Unipolar
        }
    }

    pub fn bits(self) -> (r: u8)
        ensures
            r == self.spec_bits(),
            r <= 1,
            Self::spec_from_bits(r) == self,
    {
        match self {
            Coding::Bipolar => 0,
            Coding::Unipolar => 1,
        }
    }

    pub fn from_bits(bits: u8) -> (r: Self)
        requires
            bits <= 1,
        ensures
            r == Self::spec_from_bits(bits),
            r.spec_bits() == bits,
    {
        if bits == 0 {
            Coding::Bipolar
        } else {
            Coding::Unipolar
        }
    }
}

/// Input range (RN2..RN0), for a 2.5 V reference.
#[derive(Clone, Copy, Debug, PartialEq, Eq, Structural)]
pub enum Range {
    Range20mV,
    Range40mV,
    Range80mV,
    Range160mV,
    Range320mV,
    Range640mV,
    Range1_28V,
    Range2_56V,
}

impl Range {
    /// The input range's full scale, in mV, with the nominal 2.5 V reference: ±20 mV to ±2.56 V.
    pub open spec fn full_scale_millivolts(self) -> nat {
        match self {
            Range::Range20mV => 20,
            Range::Range40mV => 40,
            Range::Range80mV => 80,
            Range::Range160mV => 160,
            Range::Range320mV => 320,
            Range::Range640mV => 640,
            Range::Range1_28V => 1280,
            Range::Range2_56V => 2560,
        }
    }
}

/// The datasheet's RN2..RN0 codes: code 0 is the narrowest range, ±20 mV, and every next code
/// doubles the range.
pub proof fn lemma_range_codes(range: Range, wider: Range)
    ensures
        range.spec_bits() == 0 <==> range.full_scale_millivolts() == 20,
        wider.spec_bits() == range.spec_bits() + 1 ==> wider.full_scale_millivolts() == 2
            * range.full_scale_millivolts(),
{
}

/// U/B selects unipolar coding exactly when set.
pub proof fn lemma_coding_code(coding: Coding)
    ensures
        coding.spec_bits() == 1 <==> coding == Coding::Unipolar,
        coding.spec_bits() == 0 <==> coding == Coding::Bipolar,
{
}

/// The datasheet's CH3..CH0 codes, read off the inputs each converts in ten-channel mode:
/// codes 0 to 7 convert AIN1 to AIN8 against AINCOM, codes 8 to 12 the pairs AIN1/AIN2 to
/// AIN9/AIN10, code 13 AINCOM against itself, and codes 14 and 15 AIN9 and AIN10 against
/// AINCOM. In eight-channel mode the last three codes read AIN2 against itself, the
/// reference inputs, and nothing.
pub proof fn lemma_channel_configuration_codes(configuration: ChannelConfiguration)
    ensures
        ({
            let code = configuration.spec_bits();
            let inputs = configuration.spec_inputs(ChannelCount::Ten);
            &&& code <= 15
            &&& code < 8 ==> inputs == (Input::AIn((code + 1) as u8), Input::AInCom)
            &&& 8 <= code <= 12 ==> inputs == (
                Input::AIn((2 * (code - 8) + 1) as u8),
                Input::AIn((2 * (code - 8) + 2) as u8),
            )
            &&& code == 13 ==> inputs == (Input::AInCom, Input::AInCom)
            &&& code == 14 ==> inputs == (Input::AIn(9), Input::AInCom)
            &&& code == 15 ==> inputs == (Input::AIn(10), Input::AInCom)
            &&& code < 12 || code == 13 ==> configuration.spec_inputs(ChannelCount::Eight)
                == inputs
            &&& code == 12 ==> configuration.spec_inputs(ChannelCount::Eight) == (
                Input::AIn(2),
                Input::AIn(2),
            )
            &&& code == 14 ==> configuration.spec_inputs(ChannelCount::Eight) == (
                Input::RefInPositive,
                Input::RefInNegative,
            )
            &&& code == 15 ==> configuration.spec_inputs(ChannelCount::Eight) == (
                Input::Open,
                Input::Open,
            )
        }),
{
}

impl Range {
    /// Value of the variant in its register field.
    pub open spec fn spec_bits(self) -> u8 {
        match self {
            Range::Range20mV => 0,
            Range::Range40mV => 1,
            Range::Range80mV => 2,
            Range::Range160mV => 3,
            Range::Range320mV => 4,
            Range::Range640mV => 5,
            Range::Range1_28V => 6,
            Range::Range2_56V => 7,
        }
    }

    /// The variant a field value encodes: every value up to 7 names one.
    pub open spec fn spec_from_bits(bits: u8) -> Self {
        if bits == 0 {
            Range::Range20mV
        } else if bits == 1 {
            Range::Range40mV
        } else if bits == 2 {
            Range::Range80mV
        } else if bits == 3 {
            Range::Range160mV
        } else if bits == 4 {
            Range::Range320mV
        } else if bits == 5 {
            Range::Range640mV
        } else if bits == 6 {
            Range::Range1_28V
        } else {
            Range::Range2_56V
        }
    }

    pub fn bits(self) -> (r: u8)
        ensures
            r == self.spec_bits(),
            r <= 7,
            Self::spec_from_bits(r) == self,
    {
        match self {
            Range::Range20mV => 0,
            Range::Range40mV => 1,
            Range::Range80mV => 2,
            Range::Range160mV => 3,
            Range::Range320mV => 4,
            Range::Range640mV => 5,
            Range::Range1_28V => 6,
            Range::Range2_56V => 7,
        }
    }

    pub fn from_bits(bits: u8) -> (r: Self)
        requires
            bits <= 7,
        ensures
            r == Self::spec_from_bits(bits),
            r.spec_bits() == bits,
    {
        if bits == 0 {
            Range::Range20mV
        } else if bits == 1 {
            Range::Range40mV
        } else if bits == 2 {
            Range::Range80mV
        } else if bits == 3 {
            Range::Range160mV
        } else if bits == 4 {
            Range::Range320mV
        } else if bits == 5 {
            Range::Range640mV
        } else if bits == 6 {
            Range::Range1_28V
        } else {
            Range::Range2_56V
        }
    }
}

impl ChannelConfiguration {
    /// The inputs this configuration converts, positive side first, in `channel_count` mode.
    pub open spec fn spec_inputs(self, channel_count: ChannelCount) -> (Input, Input) {
        let bits = self.spec_bits();
        if bits < 8 {
            (Input::AIn((bits + 1) as u8), Input::AInCom)
        } else if bits < 12 {
            (Input::AIn((2 * (bits - 8) + 1) as u8), Input::AIn((2 * (bits - 8) + 2) as u8))
        } else {
            match (self, channel_count) {
                (ChannelConfiguration::Diff9_10, ChannelCount::Eight) => (Input::AIn(2), Input::AIn(2)),
                (ChannelConfiguration::Diff9_10, ChannelCount::Ten) => (Input::AIn(9), Input::AIn(10)),
                (ChannelConfiguration::RefIn_Single9, ChannelCount::Eight) => (
                    Input::RefInPositive,
                    Input::RefInNegative,
                ),
                (ChannelConfiguration::RefIn_Single9, ChannelCount::Ten) => (Input::AIn(9), Input::AInCom),
                (ChannelConfiguration::Open_Single10, ChannelCount::Eight) => (Input::Open, Input::Open),
                (ChannelConfiguration::Open_Single10, ChannelCount::Ten) => (Input::AIn(10), Input::AInCom),
                _ => (Input::AInCom, Input::AInCom),
            }
        }
    }

    /// Calibration register (1-based) a configuration's conversions use in `channel_count`
    /// mode. Single-ended inputs share them round robin - four in eight-channel mode, five in
    /// ten-channel mode - and each differential pair has its own.
    pub open spec fn spec_calibration_register(self, channel_count: ChannelCount) -> u8 {
        let bits = self.spec_bits();
        let groups: u8 = if channel_count == ChannelCount::Eight { 4 } else { 5 };
        if bits < 8 {
            ((bits % groups) + 1) as u8
        } else if bits < 12 {
            (bits - 7) as u8
        } else if self == ChannelConfiguration::Diff9_10 {
            if channel_count == ChannelCount::Eight { 1 } else { 5 }
        } else if self == ChannelConfiguration::RefIn_Single9 {
            if channel_count == ChannelCount::Eight { 1 } else { 4 }
        } else if self == ChannelConfiguration::Open_Single10 {
            if channel_count == ChannelCount::Eight { 1 } else { 5 }
        } else {
            1
        }
    }

    /// The configuration converting `AIN<input>` against AINCOM, for the inputs every mode
    /// has (1 to 8).
    pub fn single(input: u8) -> (r: Option<Self>)
        ensures
            r is Some <==> 1 <= input <= 8,
            r matches Some(c) ==> c.spec_bits() == input - 1,
            r matches Some(c) ==> c.spec_inputs(ChannelCount::Eight) == (Input::AIn(input), Input::AInCom),
    {
        match input {
            1 => Some(Self::Single1),
            2 => Some(Self::Single2),
            3 => Some(Self::Single3),
            4 => Some(Self::Single4),
            5 => Some(Self::Single5),
            6 => Some(Self::Single6),
            7 => Some(Self::Single7),
            8 => Some(Self::Single8),
            _ => None,
        }
    }

    /// The configuration converting `AIN<positive_input>` against `AIN<negative_input>`,
    /// for the five fixed pairs.
    pub fn differential(positive_input: u8, negative_input: u8) -> (r: Option<Self>)
        ensures
            r is Some <==> (1 <= positive_input <= 9 && positive_input % 2 == 1 && negative_input
                == positive_input + 1),
            r matches Some(c) ==> c.spec_bits() == 8 + (positive_input - 1) / 2,
            r matches Some(c) ==> c.spec_inputs(ChannelCount::Ten) == (
                Input::AIn(positive_input),
                Input::AIn(negative_input),
            ),
    {
        match (positive_input, negative_input) {
            (1, 2) => Some(Self::Diff1_2),
            (3, 4) => Some(Self::Diff3_4),
            (5, 6) => Some(Self::Diff5_6),
            (7, 8) => Some(Self::Diff7_8),
            (9, 10) => Some(Self::Diff9_10),
            _ => None,
        }
    }

    /// The configuration converting input `channel` (`AIN<channel + 1>`, counted from zero)
    /// against AINCOM in `channel_count` mode: the eight singles, then AIN9 and AIN10, which
    /// only ten-channel mode has.
    pub fn single_ended(channel: u8, channel_count: ChannelCount) -> (r: Option<Self>)
        ensures
            r is Some <==> channel < channel_count.spec_count(),
            r matches Some(c) ==> c == Self::spec_single_ended(channel, channel_count),
            r matches Some(c) ==> c.spec_inputs(channel_count) == (
                Input::AIn((channel + 1) as u8),
                Input::AInCom,
            ),
    {
        if channel < 8 {
            Self::single(channel + 1)
        } else {
            match (channel, channel_count) {
                (8, ChannelCount::Ten) => Some(Self::RefIn_Single9),
                (9, ChannelCount::Ten) => Some(Self::Open_Single10),
                _ => None,
            }
        }
    }

    pub fn inputs(self, channel_count: ChannelCount) -> (r: (Input, Input))
        ensures
            r == self.spec_inputs(channel_count),
    {
        match (self, channel_count) {
            (Self::Single1, _) => (Input::AIn(1), Input::AInCom),
            (Self::Single2, _) => (Input::AIn(2), Input::AInCom),
            (Self::Single3, _) => (Input::AIn(3), Input::AInCom),
            (Self::Single4, _) => (Input::AIn(4), Input::AInCom),
            (Self::Single5, _) => (Input::AIn(5), Input::AInCom),
            (Self::Single6, _) => (Input::AIn(6), Input::AInCom),
            (Self::Single7, _) => (Input::AIn(7), Input::AInCom),
            (Self::Single8, _) => (Input::AIn(8), Input::AInCom),
            (Self::Diff1_2, _) => (Input::AIn(1), Input::AIn(2)),
            (Self::Diff3_4, _) => (Input::AIn(3), Input::AIn(4)),
            (Self::Diff5_6, _) => (Input::AIn(5), Input::AIn(6)),
            (Self::Diff7_8, _) => (Input::AIn(7), Input::AIn(8)),
            (Self::Diff9_10, ChannelCount::Eight) => (Input::AIn(2), Input::AIn(2)),
            (Self::Diff9_10, ChannelCount::Ten) => (Input::AIn(9), Input::AIn(10)),
            (Self::AInCom, _) => (Input::AInCom, Input::AInCom),
            (Self::RefIn_Single9, ChannelCount::Eight) => (Input::RefInPositive, Input::RefInNegative),
            (Self::RefIn_Single9, ChannelCount::Ten) => (Input::AIn(9), Input::AInCom),
            (Self::Open_Single10, ChannelCount::Eight) => (Input::Open, Input::Open),
            (Self::Open_Single10, ChannelCount::Ten) => (Input::AIn(10), Input::AInCom),
        }
    }

    pub fn calibration_register(self, channel_count: ChannelCount) -> (r: u8)
        ensures
            r == self.spec_calibration_register(channel_count),
            1 <= r <= 5,
            channel_count == ChannelCount::Eight ==> r <= 4,
    {
        match (self, channel_count) {
            (Self::Single1, _) => 1,
            (Self::Single2, _) => 2,
            (Self::Single3, _) => 3,
            (Self::Single4, _) => 4,
            (Self::Single5, ChannelCount::Eight) => 1,
            (Self::Single5, ChannelCount::Ten) => 5,
            (Self::Single6, ChannelCount::Eight) => 2,
            (Self::Single6, ChannelCount::Ten) => 1,
            (Self::Single7, ChannelCount::Eight) => 3,
            (Self::Single7, ChannelCount::Ten) => 2,
            (Self::Single8, ChannelCount::Eight) => 4,
            (Self::Single8, ChannelCount::Ten) => 3,
            (Self::Diff1_2, _) => 1,
            (Self::Diff3_4, _) => 2,
            (Self::Diff5_6, _) => 3,
            (Self::Diff7_8, _) => 4,
            (Self::Diff9_10, ChannelCount::Eight) => 1,
            (Self::Diff9_10, ChannelCount::Ten) => 5,
            (Self::AInCom, _) => 1,
            (Self::RefIn_Single9, ChannelCount::Eight) => 1,
            (Self::RefIn_Single9, ChannelCount::Ten) => 4,
            (Self::Open_Single10, ChannelCount::Eight) => 1,
            (Self::Open_Single10, ChannelCount::Ten) => 5,
        }
    }
}

/// Calibrating the first half of a mode's single-ended inputs calibrates every one of them:
/// input `channel` shares its calibration register with input `channel % (count / 2)`.
pub proof fn lemma_half_the_inputs_calibrate_all(channel: u8, channel_count: ChannelCount)
    requires
        channel < channel_count.spec_count(),
    ensures
        ({
            let half = (channel_count.spec_count() / 2) as u8;
            let first = ChannelConfiguration::spec_single_ended(channel, channel_count);
            let representative = ChannelConfiguration::spec_single_ended(
                (channel % half) as u8,
                channel_count,
            );
            first.spec_calibration_register(channel_count)
                == representative.spec_calibration_register(channel_count)
        }),
{
}

impl ChannelConfiguration {
    /// The configuration [`single_ended`](Self::single_ended) picks for a valid channel.
    pub open spec fn spec_single_ended(channel: u8, channel_count: ChannelCount) -> Self {
        if channel < 8 {
            Self::spec_from_bits(channel)
        } else if channel == 8 {
            ChannelConfiguration::RefIn_Single9
        } else {
            ChannelConfiguration::Open_Single10
        }
    }
}

/// The control register (address 0x02, one byte).
pub type Control = RegisterValue<0x02, 1>;

impl Control {
    /// CH3..CH0 (bits 7..4).
    pub open spec fn spec_channel_configuration(self) -> ChannelConfiguration {
        ChannelConfiguration::spec_from_bits(field_of(self@, 4, 4) as u8)
    }

    /// U/B (bit 3).
    pub open spec fn spec_coding(self) -> Coding {
        Coding::spec_from_bits(field_of(self@, 3, 1) as u8)
    }

    /// RN2..RN0 (bits 2..0).
    pub open spec fn spec_range(self) -> Range {
        Range::spec_from_bits(field_of(self@, 0, 3) as u8)
    }

    pub fn channel_configuration(&self) -> (r: ChannelConfiguration)
        ensures
            r == self.spec_channel_configuration(),
    {
        proof {
            lemma_small_masks();
        }
        ChannelConfiguration::from_bits(self.field(4, 4))
    }

    pub fn set_channel_configuration(&mut self, value: ChannelConfiguration)
        ensures
            final(self)@ == with_field(old(self)@, 4, 4, value.spec_bits() as u32),
            final(self).spec_channel_configuration() == value,
            final(self).spec_coding() == old(self).spec_coding(),
            final(self).spec_range() == old(self).spec_range(),
    {
        let bits = value.bits();
        proof {
            lemma_small_masks();
            lemma_write_small_field(self@, 4, 4, bits as u32);
            lemma_control_frame(self@, 4, 4, bits as u32);
        }
        self.set_field(4, 4, bits);
    }

    pub fn coding(&self) -> (r: Coding)
        ensures
            r == self.spec_coding(),
    {
        proof {
            lemma_small_masks();
        }
        Coding::from_bits(self.field(3, 1))
    }

    pub fn set_coding(&mut self, value: Coding)
        ensures
            final(self)@ == with_field(old(self)@, 3, 1, value.spec_bits() as u32),
            final(self).spec_coding() == value,
            final(self).spec_channel_configuration() == old(self).spec_channel_configuration(),
            final(self).spec_range() == old(self).spec_range(),
    {
        let bits = value.bits();
        proof {
            lemma_small_masks();
            lemma_write_small_field(self@, 3, 1, bits as u32);
            lemma_control_frame(self@, 3, 1, bits as u32);
        }
        self.set_field(3, 1, bits);
    }

    pub fn range(&self) -> (r: Range)
        ensures
            r == self.spec_range(),
    {
        proof {
            lemma_small_masks();
        }
        Range::from_bits(self.field(0, 3))
    }

    pub fn set_range(&mut self, value: Range)
        ensures
            final(self)@ == with_field(old(self)@, 0, 3, value.spec_bits() as u32),
            final(self).spec_range() == value,
            final(self).spec_channel_configuration() == old(self).spec_channel_configuration(),
            final(self).spec_coding() == old(self).spec_coding(),
    {
        let bits = value.bits();
        proof {
            lemma_small_masks();
            lemma_write_small_field(self@, 0, 3, bits as u32);
            lemma_control_frame(self@, 0, 3, bits as u32);
        }
        self.set_field(0, 3, bits);
    }
}

/// Writing one field of the control register keeps every other field of it.
pub proof fn lemma_control_frame(bits: u32, shift: u32, width: u32, value: u32)
    requires
        valid_field(shift, width),
    ensures
        disjoint(shift, width, 4, 4) ==> field_of(with_field(bits, shift, width, value), 4, 4)
            == field_of(bits, 4, 4),
        disjoint(shift, width, 3, 1) ==> field_of(with_field(bits, shift, width, value), 3, 1)
            == field_of(bits, 3, 1),
        disjoint(shift, width, 0, 3) ==> field_of(with_field(bits, shift, width, value), 0, 3)
            == field_of(bits, 0, 3),
{
    if disjoint(shift, width, 4, 4) {
        lemma_field_frame(bits, shift, width, value, 4, 4);
    }
    if disjoint(shift, width, 3, 1) {
        lemma_field_frame(bits, shift, width, value, 3, 1);
    }
    if disjoint(shift, width, 0, 3) {
        lemma_field_frame(bits, shift, width, value, 0, 3);
    }
}

} // verus!
