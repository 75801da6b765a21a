//! Wiring of the expression controller PCB: which chips and channels every jack's contacts
//! are connected to. Every application builds its drivers through this table, so it is the
//! only place that knows the board.
//!
//! Each jack J2-J5 (left to right) has its own analog channel block: a 74HC595 whose outputs
//! drive two TMUX1511 quad switches, one connecting each contact to a shared 1 kΩ pull-up to
//! the 2.5 V reference, the other to a shared 1 kΩ pull-down to ground. Every contact is also
//! read through a 10 kΩ / 10 nF filter by one of two AD7718s. The WS2812B LEDs D4-D7 sit
//! below the jacks in the same order.

use vstd::prelude::*;

use crate::hal::adc::ChannelCount;
use crate::topology::scanner::JackConfig;
use crate::topology::{ARM_COUNT, CONTACT_COUNT};

verus! {

/// Expression pedal jacks on the board (J2-J5).
pub const JACK_COUNT: usize = 4;

/// 74HC595 shift registers in the pull switch chain, one per jack.
pub const SWITCH_CHIPS: usize = 4;

/// AD7718 converters, each reading two jacks.
pub const ADC_CHIPS: usize = 2;

/// WS2812B LEDs, one below each jack.
pub const LED_COUNT: usize = 4;

/// Input mode every AD7718 has to run in: the second jack on each chip uses AIN9.
pub const ADC_CHANNEL_COUNT: ChannelCount = ChannelCount::Ten;

/// ADC inputs tied to ground (AIN6) and to the reference (AIN10) on every chip, which make
/// a free self-test of the whole conversion path.
pub const ADC_GROUND_CHANNEL: u8 = 5;

pub const ADC_REFERENCE_CHANNEL: u8 = 9;

/// A contact of a jack.
#[derive(Clone, Copy, Debug, PartialEq, Eq, Structural)]
pub enum Contact {
    Tip,
    Ring,
    Sleeve,
    /// The tip's normalling contact, which touches the tip while no plug is inserted.
    TipSwitch,
}

/// Every contact of a jack, in tap order.
pub const ALL_CONTACTS: [Contact; 4] = [
    Contact::Tip,
    Contact::Ring,
    Contact::Sleeve,
    Contact::TipSwitch,
];

/// The contacts the solver measures as a jack's arms, in arm order.
pub const ARM_CONTACTS: [Contact; ARM_COUNT] = [Contact::Tip, Contact::Ring, Contact::Sleeve];

impl Contact {
    /// Position of the contact in tap order, which is also its index in per-contact tables.
    pub open spec fn index(self) -> int {
        match self {
            Contact::Tip => 0,
            Contact::Ring => 1,
            Contact::Sleeve => 2,
            Contact::TipSwitch => 3,
        }
    }

    /// The tap the contact is switched through on its jack's 74HC595.
    pub fn tap(self) -> (r: u8)
        ensures
            r == self.index(),
    {
        match self {
            Contact::Tip => 0,
            Contact::Ring => 1,
            Contact::Sleeve => 2,
            Contact::TipSwitch => 3,
        }
    }
}

/// Where one jack's contacts are wired.
#[derive(Clone, Copy, Debug)]
pub struct JackWiring {
    /// The jack's 74HC595, counted from the microcontroller along the chain.
    pub switch_chip: usize,
    pub adc_chip: usize,
    /// ADC input reading every contact, indexed by [`Contact`] (AIN number minus one).
    pub adc_channels: [u8; CONTACT_COUNT],
}

impl JackWiring {
    pub fn adc_channel(&self, contact: Contact) -> (r: u8)
        ensures
            r == self.adc_channels@[contact.index()],
    {
        self.adc_channels[contact.tap() as usize]
    }

    /// The jack's wiring as the scanner takes it: tip, ring and sleeve as the three arms,
    /// then the tip switch - the contact order of the topology monitor.
    pub fn config(&self) -> (r: JackConfig)
        ensures
            r.switch_chip == self.switch_chip,
            r.adc_chip == self.adc_chip,
            r.switch_taps@ == seq![0u8, 1, 2, 3],
            r.adc_channels@ == self.adc_channels@,
    {
        let r = JackConfig {
            switch_chip: self.switch_chip,
            switch_taps: [
                Contact::Tip.tap(),
                Contact::Ring.tap(),
                Contact::Sleeve.tap(),
                Contact::TipSwitch.tap(),
            ],
            adc_chip: self.adc_chip,
            adc_channels: [
                self.adc_channel(Contact::Tip),
                self.adc_channel(Contact::Ring),
                self.adc_channel(Contact::Sleeve),
                self.adc_channel(Contact::TipSwitch),
            ],
        };
        assert(r.switch_taps@ =~= seq![0u8, 1, 2, 3]);
        assert(r.adc_channels@ =~= self.adc_channels@);
        r
    }
}

/// Tip, ring, sleeve and tip switch of the first jack on each AD7718: AIN8, AIN1, AIN7, AIN2.
pub const FIRST_JACK_ADC_CHANNELS: [u8; 4] = [7, 0, 6, 1];

/// The same for the second jack on each AD7718: AIN3, AIN9, AIN4, AIN5.
pub const SECOND_JACK_ADC_CHANNELS: [u8; 4] = [2, 8, 3, 4];

/// The wiring of jack `jack` (J2 to J5): jacks 0 and 1 share the first AD7718, jacks 2 and
/// 3 the second, each pair wired alike; every jack has its own 74HC595 in chain order.
pub open spec fn jack_wiring(jack: int) -> JackWiring {
    JackWiring {
        switch_chip: jack as usize,
        adc_chip: (jack / 2) as usize,
        adc_channels: if jack % 2 == 0 {
            FIRST_JACK_ADC_CHANNELS
        } else {
            SECOND_JACK_ADC_CHANNELS
        },
    }
}

/// Every jack's wiring, J2 to J5.
pub fn jacks() -> (r: [JackWiring; JACK_COUNT])
    ensures
        forall|jack: int| 0 <= jack < JACK_COUNT ==> r@[jack] == jack_wiring(jack),
{
    [
        JackWiring { switch_chip: 0, adc_chip: 0, adc_channels: FIRST_JACK_ADC_CHANNELS },
        JackWiring { switch_chip: 1, adc_chip: 0, adc_channels: SECOND_JACK_ADC_CHANNELS },
        JackWiring { switch_chip: 2, adc_chip: 1, adc_channels: FIRST_JACK_ADC_CHANNELS },
        JackWiring { switch_chip: 3, adc_chip: 1, adc_channels: SECOND_JACK_ADC_CHANNELS },
    ]
}

/// Whether contact `contact` of jack `jack` is read by input `channel` of ADC `chip`.
pub open spec fn reads(jack: int, contact: Contact, chip: usize, channel: u8) -> bool {
    &&& 0 <= jack < JACK_COUNT
    &&& jack_wiring(jack).adc_chip == chip
    &&& jack_wiring(jack).adc_channels@[contact.index()] == channel
}

/// The board table is consistent: every contact is read through an input of one of the
/// AD7718s that ten-channel mode has, none of them the self-test inputs, no two contacts
/// share an input, and every jack has a 74HC595 of its own.
pub proof fn lemma_wiring_consistent()
    ensures
        forall|jack: int|
            0 <= jack < JACK_COUNT ==> #[trigger] jack_wiring(jack).adc_chip < ADC_CHIPS
                && jack_wiring(jack).switch_chip < SWITCH_CHIPS,
        forall|jack: int, contact: Contact|
            0 <= jack < JACK_COUNT ==> {
                let channel = #[trigger] jack_wiring(jack).adc_channels@[contact.index()];
                &&& channel < ADC_CHANNEL_COUNT.spec_count()
                &&& channel != ADC_GROUND_CHANNEL
                &&& channel != ADC_REFERENCE_CHANNEL
            },
        forall|jack: int, contact: Contact, other_jack: int, other_contact: Contact, chip: usize, channel: u8|
            #![trigger reads(jack, contact, chip, channel), reads(other_jack, other_contact, chip, channel)]
            reads(jack, contact, chip, channel) && reads(other_jack, other_contact, chip, channel)
                ==> jack == other_jack && contact == other_contact,
        forall|jack: int, other_jack: int|
            0 <= jack < JACK_COUNT && 0 <= other_jack < JACK_COUNT && jack != other_jack
                ==> #[trigger] jack_wiring(jack).switch_chip != #[trigger] jack_wiring(
                other_jack,
            ).switch_chip,
{
    assert(FIRST_JACK_ADC_CHANNELS@ =~= seq![7u8, 0, 6, 1]);
    assert(SECOND_JACK_ADC_CHANNELS@ =~= seq![2u8, 8, 3, 4]);
}

/// The jack contact the board table puts on input `channel` of ADC `chip`, if any.
pub fn wired_to(chip: usize, channel: u8) -> (r: Option<(usize, Contact)>)
    ensures
        r matches Some((jack, contact)) ==> reads(jack as int, contact, chip, channel),
        r is None <==> !exists|jack: int, contact: Contact| reads(jack, contact, chip, channel),
{
    proof {
        assert(FIRST_JACK_ADC_CHANNELS@ =~= seq![7u8, 0, 6, 1]);
        assert(SECOND_JACK_ADC_CHANNELS@ =~= seq![2u8, 8, 3, 4]);
    }
    let jacks = jacks();
    let mut jack: usize = 0;
    while jack < JACK_COUNT
        invariant
            jack <= JACK_COUNT,
            forall|j: int| 0 <= j < JACK_COUNT ==> jacks@[j] == jack_wiring(j),
            forall|j: int, contact: Contact| 0 <= j < jack ==> !reads(j, contact, chip, channel),
        decreases JACK_COUNT - jack,
    {
        let wiring = jacks[jack];
        if wiring.adc_chip == chip {
            let mut index: usize = 0;
            while index < 4
                invariant
                    index <= 4,
                    jack < JACK_COUNT,
                    wiring == jack_wiring(jack as int),
                    wiring.adc_chip == chip,
                    forall|i: int| 0 <= i < index ==> wiring.adc_channels@[i] != channel,
                decreases 4 - index,
            {
                if wiring.adc_channels[index] == channel {
                    let contact = ALL_CONTACTS[index];
                    assert(contact.index() == index);
                    assert(reads(jack as int, contact, chip, channel));
                    return Some((jack, contact));
                }
                index += 1;
            }
            assert forall|contact: Contact| !reads(jack as int, contact, chip, channel) by {
                assert(wiring.adc_channels@[contact.index()] != channel);
            }
        }
        jack += 1;
    }
    None
}

/// Whether two contacts follow each other while no plug is inserted: the tip and its
/// normalling contact touch.
pub fn normalled(first: Contact, second: Contact) -> (r: bool)
    ensures
        r <==> ((first == Contact::Tip && second == Contact::TipSwitch) || (first
            == Contact::TipSwitch && second == Contact::Tip)),
{
    match (first, second) {
        (Contact::Tip, Contact::TipSwitch) | (Contact::TipSwitch, Contact::Tip) => true,
        _ => false,
    }
}

} // verus!
