//! The pull-up and pull-down switches of every jack: which switch each tap's state closes,
//! and the bytes the shift register chain is loaded with.
//!
//! One 74HC595 per jack drives the select inputs of two TMUX1511 quad switches: one connecting
//! each tap to that jack's shared pull-up resistor, the other to its shared pull-down
//! resistor. Chips are numbered from the microcontroller outwards, so chip 0 is the first one
//! in the shift register chain.

use vstd::prelude::*;

verus! {

/// How one tap is driven: switched to the pull-up rail, to the pull-down rail, or to neither.
///
/// Every state closes at most one of the tap's two switches, so no value of this type can
/// short a pull-up resistor to a pull-down one through the same tap.
#[derive(Clone, Copy, Debug, PartialEq, Eq, Structural)]
pub enum TriState {
    Low,
    High,
    HiZ,
}

impl Default for TriState {
    fn default() -> (r: Self)
        ensures
            r == TriState::HiZ,
    {
        TriState::HiZ
    }
}

/// Taps every shift register switches, one per contact of its jack.
pub const TAPS_PER_CHIP: usize = 4;

/// Bit of each tap's pull-up switch in its 74HC595's output byte, indexed by tap. Bit 7 is
/// QH, bit 0 is QA, since the SPI shifts the most significant bit out first; a high select
/// input closes the switch. Tap 0: QH -> pull-up SEL3; tap 1: QG -> SEL4; tap 2: QB -> SEL1;
/// tap 3: QA -> SEL2.
pub const PULL_UP_BITS: [u8; TAPS_PER_CHIP] = [7, 6, 1, 0];

/// Bit of each tap's pull-down switch, indexed by tap. Tap 0: QF -> pull-down SEL3; tap 1:
/// QE -> SEL4; tap 2: QD -> SEL1; tap 3: QC -> SEL2.
pub const PULL_DOWN_BITS: [u8; TAPS_PER_CHIP] = [5, 4, 3, 2];

/// The bits one tap's state sets in its chip's output byte.
pub open spec fn tap_bits(state: TriState, tap: int) -> u8 {
    match state {
        TriState::High => (1u8 << PULL_UP_BITS@[tap]) as u8,
        TriState::Low => (1u8 << PULL_DOWN_BITS@[tap]) as u8,
        TriState::HiZ => 0,
    }
}

/// The output byte of one 74HC595 for its four taps' states.
pub open spec fn spec_encode(outputs: Seq<TriState>) -> u8 {
    tap_bits(outputs[0], 0) | tap_bits(outputs[1], 1) | tap_bits(outputs[2], 2) | tap_bits(
        outputs[3],
        3,
    )
}

/// Whether bit `bit` of `byte` is set.
pub open spec fn byte_bit(byte: u8, bit: u8) -> bool {
    (byte >> bit) & 1 == 1
}

/// The output byte of one 74HC595 for its taps' states: a tap driven high closes its pull-up
/// switch, one driven low its pull-down switch, and nothing else is closed.
pub fn encode(outputs: &[TriState; TAPS_PER_CHIP]) -> (r: u8)
    ensures
        r == spec_encode(outputs@),
        forall|tap: int|
            0 <= tap < TAPS_PER_CHIP ==> (byte_bit(r, #[trigger] PULL_UP_BITS@[tap]) <==> outputs@[tap]
                == TriState::High) && (byte_bit(r, PULL_DOWN_BITS@[tap]) <==> outputs@[tap]
                == TriState::Low),
{
    let mut byte: u8 = 0;
    let mut tap: usize = 0;
    while tap < TAPS_PER_CHIP
        invariant
            tap <= TAPS_PER_CHIP,
            byte == if tap == 0 {
                0u8
            } else if tap == 1 {
                tap_bits(outputs@[0], 0)
            } else if tap == 2 {
                tap_bits(outputs@[0], 0) | tap_bits(outputs@[1], 1)
            } else if tap == 3 {
                tap_bits(outputs@[0], 0) | tap_bits(outputs@[1], 1) | tap_bits(outputs@[2], 2)
            } else {
                spec_encode(outputs@)
            },
        decreases TAPS_PER_CHIP - tap,
    {
        let previous = byte;
        byte = match outputs[tap] {
            TriState::High => byte | 1 << PULL_UP_BITS[tap],
            TriState::Low => byte | 1 << PULL_DOWN_BITS[tap],
            TriState::HiZ => byte,
        };
        proof {
            assert(previous | 0u8 == previous) by (bit_vector);
            if tap == 0 {
                assert(0u8 | tap_bits(outputs@[0], 0) == tap_bits(outputs@[0], 0)) by {
                    let t = tap_bits(outputs@[0], 0);
                    assert(0u8 | t == t) by (bit_vector);
                }
            }
        }
        tap += 1;
    }
    proof {
        lemma_encode_bits(outputs@);
    }
    byte
}

/// Each tap's two switches sit on their own bits of the output byte, so the byte says
/// exactly which switches the taps' states close.
proof fn lemma_encode_bits(outputs: Seq<TriState>)
    requires
        outputs.len() == TAPS_PER_CHIP,
    ensures
        forall|tap: int|
            0 <= tap < TAPS_PER_CHIP ==> (byte_bit(spec_encode(outputs), #[trigger] PULL_UP_BITS@[tap])
                <==> outputs[tap] == TriState::High) && (byte_bit(
                spec_encode(outputs),
                PULL_DOWN_BITS@[tap],
            ) <==> outputs[tap] == TriState::Low),
{
    assert(PULL_UP_BITS@ =~= seq![7u8, 6, 1, 0]);
    assert(PULL_DOWN_BITS@ =~= seq![5u8, 4, 3, 2]);
    let a = tap_bits(outputs[0], 0);
    let b = tap_bits(outputs[1], 1);
    let c = tap_bits(outputs[2], 2);
    let d = tap_bits(outputs[3], 3);
    assert(1u8 << 7u8 == 0x80 && 1u8 << 5u8 == 0x20 && 1u8 << 6u8 == 0x40 && 1u8 << 4u8 == 0x10
        && 1u8 << 1u8 == 0x02 && 1u8 << 3u8 == 0x08 && 1u8 << 0u8 == 0x01 && 1u8 << 2u8 == 0x04)
        by (bit_vector);
    assert({
        let e = a | b | c | d;
        &&& ((e >> 7u8) & 1 == 1 <==> a == 0x80)
        &&& ((e >> 5u8) & 1 == 1 <==> a == 0x20)
        &&& ((e >> 6u8) & 1 == 1 <==> b == 0x40)
        &&& ((e >> 4u8) & 1 == 1 <==> b == 0x10)
        &&& ((e >> 1u8) & 1 == 1 <==> c == 0x02)
        &&& ((e >> 3u8) & 1 == 1 <==> c == 0x08)
        &&& ((e >> 0u8) & 1 == 1 <==> d == 0x01)
        &&& ((e >> 2u8) & 1 == 1 <==> d == 0x04)
    }) by (bit_vector)
        requires
            a == 0 || a == 0x80 || a == 0x20,
            b == 0 || b == 0x40 || b == 0x10,
            c == 0 || c == 0x02 || c == 0x08,
            d == 0 || d == 0x01 || d == 0x04,
    ;
}

/// No output byte closes both switches of one tap: a tap is never pulled up and down at once.
pub proof fn lemma_no_tap_pulled_both_ways(outputs: Seq<TriState>, tap: int)
    requires
        outputs.len() == TAPS_PER_CHIP,
        0 <= tap < TAPS_PER_CHIP,
    ensures
        !(byte_bit(spec_encode(outputs), PULL_UP_BITS@[tap]) && byte_bit(
            spec_encode(outputs),
            PULL_DOWN_BITS@[tap],
        )),
{
    lemma_encode_bits(outputs);
}

/// With every tap floating the byte closes no switch at all: what clearing a chain sends.
pub proof fn lemma_floating_taps_close_nothing(outputs: Seq<TriState>)
    requires
        outputs.len() == TAPS_PER_CHIP,
        forall|tap: int| 0 <= tap < TAPS_PER_CHIP ==> outputs[tap] == TriState::HiZ,
    ensures
        spec_encode(outputs) == 0,
{
    assert(outputs[0] == TriState::HiZ && outputs[1] == TriState::HiZ && outputs[2]
        == TriState::HiZ && outputs[3] == TriState::HiZ);
    assert(0u8 | 0u8 | 0u8 | 0u8 == 0u8) by (bit_vector);
}

/// The switch states of `N` jacks' taps, as last set, and the bytes that apply them all at
/// once.
pub struct PullSwitchChain<const N: usize> {
    outputs: [[TriState; TAPS_PER_CHIP]; N],
}

impl<const N: usize> PullSwitchChain<N> {
    /// The state tap `tap` of chip `chip` is set to.
    pub closed spec fn output(self, chip: int, tap: int) -> TriState {
        self.outputs@[chip]@[tap]
    }

    /// Every tap's states of chip `chip`.
    pub closed spec fn chip_outputs(self, chip: int) -> Seq<TriState> {
        self.outputs@[chip]@
    }

    pub proof fn lemma_chip_outputs(self, chip: int)
        requires
            0 <= chip < N,
        ensures
            self.chip_outputs(chip).len() == TAPS_PER_CHIP,
            forall|tap: int| 0 <= tap < TAPS_PER_CHIP ==> self.chip_outputs(chip)[tap] == #[trigger] self.output(chip, tap),
    {
    }

    /// Every tap floating.
    pub fn new() -> (r: Self)
        ensures
            forall|chip: int, tap: int|
                0 <= chip < N && 0 <= tap < TAPS_PER_CHIP ==> r.output(chip, tap) == TriState::HiZ,
    {
        Self { outputs: [[TriState::HiZ; TAPS_PER_CHIP]; N] }
    }

    pub fn set_output(&mut self, chip: usize, tap: u8, state: TriState)
        requires
            chip < N,
            tap < TAPS_PER_CHIP,
        ensures
            final(self).output(chip as int, tap as int) == state,
            forall|c: int, t: int|
                0 <= c < N && 0 <= t < TAPS_PER_CHIP && (c, t) != (chip as int, tap as int) ==> final(self).output(c, t)
                    == old(self).output(c, t),
    {
        let mut row = self.outputs[chip];
        row[tap as usize] = state;
        self.outputs[chip] = row;
    }

    pub fn get_output(&self, chip: usize, tap: u8) -> (r: TriState)
        requires
            chip < N,
            tap < TAPS_PER_CHIP,
        ensures
            r == self.output(chip as int, tap as int),
    {
        self.outputs[chip][tap as usize]
    }

    /// The bytes that apply every output state at once. The first byte shifted out travels
    /// furthest down the chain, so it belongs to the last chip.
    pub fn frame(&self) -> (r: [u8; N])
        ensures
            forall|chip: int| 0 <= chip < N ==> r@[N - 1 - chip] == spec_encode(#[trigger] self.chip_outputs(chip)),
    {
        let mut data = [0u8; N];
        let mut chip: usize = 0;
        while chip < N
            invariant
                chip <= N,
                data@.len() == N,
                forall|c: int| 0 <= c < chip ==> data@[N - 1 - c] == spec_encode(#[trigger] self.chip_outputs(c)),
            decreases N - chip,
        {
            data[N - 1 - chip] = encode(&self.outputs[chip]);
            chip += 1;
        }
        data
    }

    /// Opens every switch, leaving all taps floating.
    pub fn clear(&mut self)
        ensures
            forall|chip: int, tap: int|
                0 <= chip < N && 0 <= tap < TAPS_PER_CHIP ==> final(self).output(chip, tap) == TriState::HiZ,
    {
        self.outputs = [[TriState::HiZ; TAPS_PER_CHIP]; N];
    }
}

} // verus!
