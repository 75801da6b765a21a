use expad::adc::registers::control::{ChannelConfiguration, Coding, Control, Input, Range};
use expad::adc::registers::filter::Filter;
use expad::adc::registers::id::Id;
use expad::adc::registers::mode::{AdcMode, ChannelCount, Mode as ChipMode, Reference};
use expad::adc::registers::status::Status as ChipStatus;
use expad::adc::registers::Register;
use expad::adc::{is_ad7718, pack_cr, RegisterAddress, RegisterOperation};
use expad::hal::adc::registers::mode::Mode;
use expad::hal::adc::registers::status::Status;
use expad::hal::adc::{
    check_id, control_byte, read_frame, register_value, write_frame, AdcChainConfig,
    AdcChainError, ContinuousCapture,
};

#[test]
fn mode_fields_pack_into_their_bits() {
    let mut mode = Mode::from_bits(0);
    mode.set_chopping(false);
    assert_eq!(mode.bits(), 0x80);
    mode.set_channel_count(ChannelCount::Ten);
    assert_eq!(mode.bits(), 0x90);
    mode.set_adc_mode(AdcMode::SingleConversion);
    assert_eq!(mode.bits(), 0x92);
    mode.set_reference(Reference::RefIn2);
    mode.set_negative_buffer(true);
    mode.set_oscillator_power_down(true);
    assert_eq!(mode.bits(), 0xFA);

    assert!(!mode.chopping());
    assert!(mode.negative_buffer());
    assert_eq!(mode.reference(), Reference::RefIn2);
    assert_eq!(mode.channel_count(), ChannelCount::Ten);
    assert!(mode.oscillator_power_down());
    assert_eq!(mode.adc_mode(), AdcMode::SingleConversion);
}

#[test]
fn chopping_is_enabled_while_its_bit_is_clear() {
    assert!(Mode::from_bits(0x00).chopping());
    assert!(!Mode::from_bits(0x80).chopping());
    let mut mode = Mode::from_bits(0x80);
    mode.set_chopping(true);
    assert_eq!(mode.bits(), 0x00);
}

#[test]
fn writing_a_field_leaves_the_others_alone() {
    let mut mode = Mode::from_bits(0xFF);
    mode.set_adc_mode(AdcMode::PowerDown);
    assert_eq!(mode.bits(), 0xF8);
    mode.set_negative_buffer(false);
    assert_eq!(mode.bits(), 0xB8);
    assert_eq!(mode.reference(), Reference::RefIn2);
    assert_eq!(mode.channel_count(), ChannelCount::Ten);
    assert!(mode.oscillator_power_down());
    // Bits above the register's byte are kept as well.
    let mut wide = Mode::from_bits(0x1_00);
    wide.set_adc_mode(AdcMode::SystemFullScaleCalibration);
    assert_eq!(wide.bits(), 0x1_07);
}

#[test]
fn chip_mode_register_matches_the_driver_layout() {
    let mut mode = ChipMode::new();
    mode.set_chopping(false);
    mode.set_adc_mode(AdcMode::ContinuousConversion);
    assert_eq!(mode.bits(), 0x83);
    assert_eq!(ChipMode::address(), 0x01);
    assert_eq!(ChipMode::width(), 1);
    let read = ChipMode::from_bits(0x33);
    assert!(read.chopping());
    assert!(!read.negative_buffer());
    assert_eq!(read.reference(), Reference::RefIn2);
    assert_eq!(read.channel_count(), ChannelCount::Ten);
    assert!(!read.oscillator_power_down());
    assert_eq!(read.adc_mode(), AdcMode::ContinuousConversion);
}

#[test]
fn enum_codes_round_trip() {
    for bits in 0..8u8 {
        assert_eq!(AdcMode::from_bits(bits).bits(), bits);
        assert_eq!(Range::from_bits(bits).bits(), bits);
    }
    for bits in 0..16u8 {
        assert_eq!(ChannelConfiguration::from_bits(bits).bits(), bits);
    }
    assert_eq!(Coding::Unipolar.bits(), 1);
    assert_eq!(Range::Range2_56V.bits(), 7);
    assert_eq!(ChannelConfiguration::Open_Single10.bits(), 15);
}

#[test]
fn control_register_packs_configuration_coding_and_range() {
    let mut control = Control::from_bits(0);
    control.set_channel_configuration(ChannelConfiguration::Diff5_6);
    control.set_coding(Coding::Unipolar);
    control.set_range(Range::Range2_56V);
    assert_eq!(control.bits(), 0xAF);
    assert_eq!(control.channel_configuration(), ChannelConfiguration::Diff5_6);
    assert_eq!(control.coding(), Coding::Unipolar);
    assert_eq!(control.range(), Range::Range2_56V);
    control.set_coding(Coding::Bipolar);
    assert_eq!(control.bits(), 0xA7);
}

#[test]
fn single_and_differential_configurations() {
    assert_eq!(ChannelConfiguration::single(1), Some(ChannelConfiguration::Single1));
    assert_eq!(ChannelConfiguration::single(8), Some(ChannelConfiguration::Single8));
    assert_eq!(ChannelConfiguration::single(0), None);
    assert_eq!(ChannelConfiguration::single(9), None);
    assert_eq!(ChannelConfiguration::differential(1, 2), Some(ChannelConfiguration::Diff1_2));
    assert_eq!(ChannelConfiguration::differential(9, 10), Some(ChannelConfiguration::Diff9_10));
    assert_eq!(ChannelConfiguration::differential(2, 3), None);
    assert_eq!(ChannelConfiguration::differential(2, 1), None);
}

#[test]
fn single_ended_channels_count_from_zero() {
    assert_eq!(
        ChannelConfiguration::single_ended(0, ChannelCount::Eight),
        Some(ChannelConfiguration::Single1)
    );
    assert_eq!(
        ChannelConfiguration::single_ended(8, ChannelCount::Ten),
        Some(ChannelConfiguration::RefIn_Single9)
    );
    assert_eq!(
        ChannelConfiguration::single_ended(9, ChannelCount::Ten),
        Some(ChannelConfiguration::Open_Single10)
    );
    assert_eq!(ChannelConfiguration::single_ended(8, ChannelCount::Eight), None);
    assert_eq!(ChannelConfiguration::single_ended(10, ChannelCount::Ten), None);
}

#[test]
fn inputs_depend_on_the_channel_count() {
    assert_eq!(
        ChannelConfiguration::Single3.inputs(ChannelCount::Eight),
        (Input::AIn(3), Input::AInCom)
    );
    assert_eq!(
        ChannelConfiguration::Diff7_8.inputs(ChannelCount::Ten),
        (Input::AIn(7), Input::AIn(8))
    );
    assert_eq!(
        ChannelConfiguration::Diff9_10.inputs(ChannelCount::Eight),
        (Input::AIn(2), Input::AIn(2))
    );
    assert_eq!(
        ChannelConfiguration::RefIn_Single9.inputs(ChannelCount::Eight),
        (Input::RefInPositive, Input::RefInNegative)
    );
    assert_eq!(
        ChannelConfiguration::Open_Single10.inputs(ChannelCount::Ten),
        (Input::AIn(10), Input::AInCom)
    );
    assert_eq!(
        ChannelConfiguration::AInCom.inputs(ChannelCount::Ten),
        (Input::AInCom, Input::AInCom)
    );
}

#[test]
fn calibration_registers_are_shared_round_robin() {
    assert_eq!(ChannelConfiguration::Single6.calibration_register(ChannelCount::Ten), 1);
    assert_eq!(ChannelConfiguration::Single6.calibration_register(ChannelCount::Eight), 2);
    assert_eq!(ChannelConfiguration::Single5.calibration_register(ChannelCount::Ten), 5);
    assert_eq!(ChannelConfiguration::Diff9_10.calibration_register(ChannelCount::Ten), 5);
    assert_eq!(ChannelConfiguration::RefIn_Single9.calibration_register(ChannelCount::Ten), 4);
    for (count, inputs) in [(ChannelCount::Eight, 8u8), (ChannelCount::Ten, 10u8)] {
        let half = inputs / 2;
        for channel in 0..inputs {
            let own = ChannelConfiguration::single_ended(channel, count).unwrap();
            let calibrated = ChannelConfiguration::single_ended(channel % half, count).unwrap();
            assert_eq!(own.calibration_register(count), calibrated.calibration_register(count));
        }
    }
}

#[test]
fn filter_words_for_the_characterized_rates() {
    for (rate, word) in [(1365u32, 3u32), (1024, 4), (819, 5), (682, 6), (315, 13)] {
        let filter = Filter::from_update_rate(rate, false);
        assert_eq!(filter.bits(), word);
        assert_eq!(filter.update_rate(false), rate);
    }
}

#[test]
fn filter_words_are_clamped_to_the_allowed_range() {
    assert_eq!(Filter::from_update_rate(0, false).bits(), 255);
    assert_eq!(Filter::from_update_rate(100_000, false).bits(), 3);
    assert_eq!(Filter::from_update_rate(u32::MAX, true).bits(), 13);
    assert_eq!(Filter::from_update_rate(50, true).bits(), 27);
    assert_eq!(Filter::best_speed(false).bits(), 3);
    assert_eq!(Filter::best_speed(true).bits(), 13);
    assert_eq!(Filter::best_accuracy(true).bits(), 255);
    assert_eq!(Filter::best_speed(false).update_rate(false), 1365);
    assert_eq!(Filter::best_accuracy(false).update_rate(false), 16);
}

#[test]
fn requested_rates_round_to_the_nearest_word() {
    // 700 Hz lies between word 5 (819 Hz) and word 6 (682 Hz), nearer the latter.
    assert_eq!(Filter::from_update_rate(700, false).bits(), 6);
    assert_eq!(Filter::from_update_rate(760, false).bits(), 5);
    for rate in 0..=2000u32 {
        for chopping in [false, true] {
            let word = Filter::from_update_rate(rate, chopping);
            let distance = |bits: u32| {
                let word_rate = Filter::from_bits(bits).update_rate(chopping);
                word_rate.abs_diff(rate)
            };
            let chosen = distance(word.bits());
            let (min, max) = if chopping { (13, 255) } else { (3, 255) };
            for other in min..=max {
                assert!(chosen <= distance(other), "{rate} Hz: word {}", word.bits());
                if other < word.bits() {
                    assert!(chosen < distance(other) || Filter::from_bits(other).update_rate(chopping)
                        == Filter::from_bits(word.bits()).update_rate(chopping));
                }
            }
        }
    }
}

#[test]
fn id_register_identifies_an_ad7718_whatever_its_revision() {
    let id = Id::from_bits(0x4A);
    assert_eq!(id.chip_id(), 0x40);
    assert!(is_ad7718(id));
    assert!(!is_ad7718(Id::from_bits(0x5A)));
    assert_eq!(check_id(1, id), Ok(()));
    assert_eq!(
        check_id(1, Id::from_bits(0xFF)),
        Err(AdcChainError::IdMismatch { chip: 1, expected_id: 0x40, actual_id: 0xF0 })
    );
}

#[test]
fn status_bits_are_mostly_active_low() {
    let status = Status::from_bits(0x00);
    assert!(status.ready() && status.calibration() && status.error() && !status.lock());
    let status = Status::from_bits(0xA9);
    assert!(!status.ready() && !status.calibration() && !status.error() && status.lock());
    let chip = ChipStatus::from_bits(0x01);
    assert!(chip.ready() && chip.lock());
}

#[test]
fn communication_bytes_carry_direction_and_address() {
    assert_eq!(pack_cr(RegisterOperation::Read, RegisterAddress::ID), 0x4F);
    assert_eq!(pack_cr(RegisterOperation::Write, RegisterAddress::Filter), 0x03);
    assert_eq!(pack_cr(RegisterOperation::Read, RegisterAddress::Data), 0x44);
    assert_eq!(control_byte(RegisterOperation::Write, 0x1F), 0x0F);
}

#[test]
fn register_frames_are_big_endian() {
    assert_eq!(write_frame(0x04, 0x12_3456, 3), [0x04, 0x12, 0x34, 0x56]);
    assert_eq!(write_frame(0x01, 0x92, 1), [0x01, 0x92, 0, 0]);
    assert_eq!(read_frame(0x0F), [0x4F, 0, 0, 0]);
    assert_eq!(register_value(&[0x12, 0x34, 0x56]), 0x12_3456);
    assert_eq!(register_value(&[]), 0);
    for (bits, width) in [(0xABu32, 1usize), (0xBEEF, 2), (0xFF_FFFF, 3), (0x80_0000, 3)] {
        let frame = write_frame(0x04, bits, width);
        assert_eq!(register_value(&frame[1..1 + width]), bits);
    }
}

#[test]
fn default_chain_config_runs_eight_unipolar_inputs_at_full_speed() {
    let config = AdcChainConfig::default();
    assert_eq!(config.filter_update_rate(), 1365);
    assert_eq!(config.filter_register().bits(), 3);
    assert_eq!(config.control_register(0).unwrap().bits(), 0x0F);
    assert_eq!(
        config.control_register(8).unwrap_err(),
        AdcChainError::InvalidChannel { chip: 0, channel: 8 }
    );
    assert_eq!(config.mode_register(AdcMode::Idle).bits(), 0x81);
    assert_eq!(config.calibration_channels(), 4);
}

#[test]
fn configured_chain_registers() {
    let config = AdcChainConfig::default()
        .with_channel_count(ChannelCount::Ten)
        .with_update_rate(819)
        .with_coding(Coding::Bipolar)
        .with_range(Range::Range1_28V);
    assert_eq!(config.filter_register().bits(), 5);
    assert_eq!(config.filter_update_rate(), 819);
    assert_eq!(config.control_register(8).unwrap().bits(), 0xE6);
    assert_eq!(config.mode_register(AdcMode::SingleConversion).bits(), 0x92);
    assert_eq!(config.calibration_channels(), 5);
    assert_eq!(config.next_channel(9), 0);
    assert_eq!(config.next_channel(3), 4);
    assert_eq!(AdcChainConfig::default().next_channel(7), 0);
}

#[test]
fn continuous_capture_tracks_each_chips_input() {
    let mut capture = ContinuousCapture::<2>::new();
    assert!(!capture.active());
    assert_eq!(capture.channel(0), Err(AdcChainError::ContinuousMeasurementNotRunning));
    capture.start();
    assert!(capture.active());
    assert_eq!(capture.channel(1), Ok(0));
    capture.set_channel(1, 5);
    assert_eq!(capture.channel(1), Ok(5));
    assert_eq!(capture.channel(0), Ok(0));
    capture.stop();
    assert_eq!(capture.channel(1), Err(AdcChainError::ContinuousMeasurementNotRunning));
}

#[test]
fn channel_count_numbers() {
    assert_eq!(ChannelCount::new(8), Some(ChannelCount::Eight));
    assert_eq!(ChannelCount::new(10), Some(ChannelCount::Ten));
    assert_eq!(ChannelCount::new(9), None);
    assert_eq!(ChannelCount::Ten.count(), 10);
}
