//! The earlier board revision's tri-state buffers: one 74HC595 per chip driving four buffer
//! channels, two bits each (enable and level).

use vstd::prelude::*;

verus! {

/// How one buffer channel drives its output.
#[derive(Clone, Copy, Debug, PartialEq, Eq, Structural)]
pub enum TriState {
    /// Enabled, driving low (0b10).
    Low,
    /// Enabled, driving high (0b11).
    High,
    /// Disabled (0b00).
    HiZ,
}

impl TriState {
    /// The channel's two shift register bits: enable, then level.
    pub open spec fn spec_bits(self) -> u8 {
        match self {
            TriState::Low => 0b10,
            TriState::High => 0b11,
            TriState::HiZ => 0b00,
        }
    }

    pub fn bits(self) -> (r: u8)
        ensures
            r == self.spec_bits(),
    {
        match self {
            TriState::Low => 0b10,
            TriState::High => 0b11,
            TriState::HiZ => 0b00,
        }
    }
}

/// A channel's two bits: the enable bit is set exactly while it drives its output, and the
/// level bit exactly while it drives it high.
pub proof fn lemma_buffer_codes(state: TriState)
    ensures
        state.spec_bits() / 2 == 1 <==> state != TriState::HiZ,
        state.spec_bits() % 2 == 1 <==> state == TriState::High,
        state.spec_bits() <= 3,
{
}

impl Default for TriState {
    fn default() -> (r: Self)
        ensures
            r == TriState::HiZ,
    {
        TriState::HiZ
    }
}

/// The output byte of one chip: channel `c`'s bits at bits `2c + 1` and `2c`.
pub open spec fn spec_quad_byte(outputs: Seq<TriState>) -> u8 {
    outputs[0].spec_bits() | (outputs[1].spec_bits() << 2u8) | (outputs[2].spec_bits() << 4u8) | (
    outputs[3].spec_bits() << 6u8)
}

/// The output byte of one chip, each channel's state in its own two bits.
pub fn encode(outputs: &[TriState; 4]) -> (r: u8)
    ensures
        r == spec_quad_byte(outputs@),
        forall|channel: int| 0 <= channel < 4 ==> (r >> (2 * channel) as u8) & 3 == (#[trigger] outputs@[channel]).spec_bits(),
{
    let a = outputs[0].bits();
    let b = outputs[1].bits();
    let c = outputs[2].bits();
    let d = outputs[3].bits();
    let byte = a | (b << 2) | (c << 4) | (d << 6);
    proof {
        assert({
            &&& (byte >> 0u8) & 3 == a
            &&& (byte >> 2u8) & 3 == b
            &&& (byte >> 4u8) & 3 == c
            &&& (byte >> 6u8) & 3 == d
        }) by (bit_vector)
            requires
                a <= 3 && b <= 3 && c <= 3 && d <= 3,
                byte == a | (b << 2u8) | (c << 4u8) | (d << 6u8),
        ;
        assert forall|channel: int| 0 <= channel < 4 implies (byte >> (2 * channel) as u8) & 3
            == (#[trigger] outputs@[channel]).spec_bits() by {
            if channel == 0 {
                assert((2 * channel) as u8 == 0u8);
            } else if channel == 1 {
                assert((2 * channel) as u8 == 2u8);
            } else if channel == 2 {
                assert((2 * channel) as u8 == 4u8);
            } else {
                assert((2 * channel) as u8 == 6u8);
            }
        }
    }
    byte
}

/// With every channel disabled the chip's byte is zero: what clearing a chain sends.
pub proof fn lemma_disabled_channels_send_zero(outputs: Seq<TriState>)
    requires
        outputs.len() == 4,
        forall|channel: int| 0 <= channel < 4 ==> outputs[channel] == TriState::HiZ,
    ensures
        spec_quad_byte(outputs) == 0,
{
    assert(outputs[0] == TriState::HiZ && outputs[1] == TriState::HiZ && outputs[2]
        == TriState::HiZ && outputs[3] == TriState::HiZ);
    assert(0u8 | (0u8 << 2u8) | (0u8 << 4u8) | (0u8 << 6u8) == 0u8) by (bit_vector);
}

/// The buffer states of `N` chips, as last set, and the bytes that apply them.
pub struct QuadBufferChain<const N: usize> {
    outputs: [[TriState; 4]; N],
}

impl<const N: usize> QuadBufferChain<N> {
    pub closed spec fn output(self, chip: int, channel: int) -> TriState {
        self.outputs@[chip]@[channel]
    }

    pub closed spec fn chip_outputs(self, chip: int) -> Seq<TriState> {
        self.outputs@[chip]@
    }

    /// Every channel disabled.
    pub fn new() -> (r: Self)
        ensures
            forall|chip: int, channel: int|
                0 <= chip < N && 0 <= channel < 4 ==> r.output(chip, channel) == TriState::HiZ,
    {
        Self { outputs: [[TriState::HiZ; 4]; N] }
    }

    pub fn set_output(&mut self, chip: usize, channel: u8, state: TriState)
        requires
            chip < N,
            channel < 4,
        ensures
            final(self).output(chip as int, channel as int) == state,
            forall|c: int, ch: int|
                0 <= c < N && 0 <= ch < 4 && (c, ch) != (chip as int, channel as int) ==> final(self).output(c, ch)
                    == old(self).output(c, ch),
    {
        let mut row = self.outputs[chip];
        row[channel as usize] = state;
        self.outputs[chip] = row;
    }

    pub fn get_output(&self, chip: usize, channel: u8) -> (r: TriState)
        requires
            chip < N,
            channel < 4,
        ensures
            r == self.output(chip as int, channel as int),
    {
        self.outputs[chip][channel as usize]
    }

    /// The shift register data for the output states, chip by chip.
    pub fn frame(&self) -> (r: [u8; N])
        ensures
            forall|chip: int| 0 <= chip < N ==> r@[chip] == spec_quad_byte(#[trigger] self.chip_outputs(chip)),
    {
        let mut data = [0u8; N];
        let mut chip: usize = 0;
        while chip < N
            invariant
                chip <= N,
                data@.len() == N,
                forall|c: int| 0 <= c < chip ==> data@[c] == spec_quad_byte(#[trigger] self.chip_outputs(c)),
            decreases N - chip,
        {
            data[chip] = encode(&self.outputs[chip]);
            chip += 1;
        }
        data
    }
}

} // verus!
