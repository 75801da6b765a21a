use expad::board::{
    jacks, normalled, wired_to, Contact, ADC_CHANNEL_COUNT, ADC_CHIPS, ADC_GROUND_CHANNEL,
    ADC_REFERENCE_CHANNEL, ALL_CONTACTS, ARM_CONTACTS, FIRST_JACK_ADC_CHANNELS, JACK_COUNT,
    SECOND_JACK_ADC_CHANNELS, SWITCH_CHIPS,
};

#[test]
fn every_jack_has_its_own_shift_register_and_shares_an_adc_with_its_neighbour() {
    let jacks = jacks();
    assert_eq!(jacks.len(), JACK_COUNT);
    for (index, jack) in jacks.iter().enumerate() {
        assert_eq!(jack.switch_chip, index);
        assert_eq!(jack.adc_chip, index / 2);
        assert!(jack.switch_chip < SWITCH_CHIPS);
        assert!(jack.adc_chip < ADC_CHIPS);
    }
    assert_eq!(jacks[0].adc_channels, FIRST_JACK_ADC_CHANNELS);
    assert_eq!(jacks[1].adc_channels, SECOND_JACK_ADC_CHANNELS);
    assert_eq!(jacks[2].adc_channels, FIRST_JACK_ADC_CHANNELS);
    assert_eq!(jacks[3].adc_channels, SECOND_JACK_ADC_CHANNELS);
}

#[test]
fn contacts_read_through_the_schematic_inputs() {
    let jacks = jacks();
    // AIN8, AIN1, AIN7, AIN2 on the first jack of a chip.
    assert_eq!(jacks[0].adc_channel(Contact::Tip), 7);
    assert_eq!(jacks[0].adc_channel(Contact::Ring), 0);
    assert_eq!(jacks[0].adc_channel(Contact::Sleeve), 6);
    assert_eq!(jacks[0].adc_channel(Contact::TipSwitch), 1);
    // AIN3, AIN9, AIN4, AIN5 on the second.
    assert_eq!(jacks[3].adc_channel(Contact::Tip), 2);
    assert_eq!(jacks[3].adc_channel(Contact::Ring), 8);
    assert_eq!(jacks[3].adc_channel(Contact::Sleeve), 3);
    assert_eq!(jacks[3].adc_channel(Contact::TipSwitch), 4);
}

#[test]
fn no_contact_uses_a_self_test_input_or_shares_one() {
    let jacks = jacks();
    for chip in 0..ADC_CHIPS {
        let mut used = Vec::new();
        for jack in jacks.iter().filter(|jack| jack.adc_chip == chip) {
            for channel in jack.adc_channels {
                assert!(channel < ADC_CHANNEL_COUNT.count());
                assert_ne!(channel, ADC_GROUND_CHANNEL);
                assert_ne!(channel, ADC_REFERENCE_CHANNEL);
                assert!(!used.contains(&channel));
                used.push(channel);
            }
        }
    }
}

#[test]
fn wired_to_finds_the_contact_behind_an_input() {
    assert_eq!(wired_to(0, 8), Some((1, Contact::Ring)));
    assert_eq!(wired_to(0, 7), Some((0, Contact::Tip)));
    assert_eq!(wired_to(1, 7), Some((2, Contact::Tip)));
    assert_eq!(wired_to(1, 4), Some((3, Contact::TipSwitch)));
    assert_eq!(wired_to(1, ADC_GROUND_CHANNEL), None);
    assert_eq!(wired_to(0, ADC_REFERENCE_CHANNEL), None);
    assert_eq!(wired_to(2, 0), None);
}

#[test]
fn wired_to_inverts_the_table() {
    for (index, jack) in jacks().iter().enumerate() {
        for contact in ALL_CONTACTS {
            assert_eq!(wired_to(jack.adc_chip, jack.adc_channel(contact)), Some((index, contact)));
        }
    }
}

#[test]
fn scanner_configs_list_the_arms_then_the_tip_switch() {
    let config = jacks()[1].config();
    assert_eq!(config.switch_chip, 1);
    assert_eq!(config.adc_chip, 0);
    assert_eq!(config.switch_taps, [0, 1, 2, 3]);
    assert_eq!(config.adc_channels, [2, 8, 3, 4]);
    assert_eq!(ARM_CONTACTS, [Contact::Tip, Contact::Ring, Contact::Sleeve]);
    assert_eq!(Contact::Sleeve.tap(), 2);
    assert_eq!(Contact::TipSwitch.tap(), 3);
}

#[test]
fn only_the_tip_and_its_switch_are_normalled() {
    assert!(normalled(Contact::Tip, Contact::TipSwitch));
    assert!(normalled(Contact::TipSwitch, Contact::Tip));
    assert!(!normalled(Contact::Ring, Contact::Sleeve));
    assert!(!normalled(Contact::Tip, Contact::Tip));
    assert!(!normalled(Contact::Ring, Contact::TipSwitch));
}
