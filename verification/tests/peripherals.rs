use expad::controller::{followed, updates_per_second, MidiUpdate};
use expad::hal::buf::pull_switch::{encode, PULL_DOWN_BITS, PULL_UP_BITS};
use expad::hal::buf::{PullSwitchChain, TriState};
use expad::hal::led::strip::{scale_channel, scale_color, DEFAULT_BRIGHTNESS};
use expad::hal::led::ws2812::{limit_channel, limited_frame};
use expad::hal::led::{limit_color, LedStrip, MAX_CHANNEL_VALUE, RGB8};
use expad::hal::usb::driver::FLOOD_EVENT_COUNT;
use expad::hal::usb::midi::{string_descriptor_fits, MAX_STRING_LENGTH};
use expad::hal::usb::{BurstTracker, ConnectionTracker, UsbMidiConfig};
use expad::quadbuf::{self, QuadBufferChain, TriState as Buffer};
use expad::rainbow::{led_hue, wheel};
use expad::topology::{Drive, JackMode};
use expad::web::interface::{sweep_phase, SWEEP_PERIOD_MILLISECONDS};
use expad::hal::wifi::wpa2_password_valid;
use expad::web::{ArmPull, WiperContact};

#[test]
fn pull_switch_bytes_close_one_switch_per_driven_tap() {
    assert_eq!(encode(&[TriState::High, TriState::HiZ, TriState::Low, TriState::HiZ]), 0x88);
    assert_eq!(encode(&[TriState::Low; 4]), 0x3C);
    assert_eq!(encode(&[TriState::High; 4]), 0xC3);
    assert_eq!(encode(&[TriState::HiZ; 4]), 0x00);
    for tap in 0..4 {
        let mut outputs = [TriState::HiZ; 4];
        outputs[tap] = TriState::High;
        assert_eq!(encode(&outputs), 1 << PULL_UP_BITS[tap]);
        outputs[tap] = TriState::Low;
        assert_eq!(encode(&outputs), 1 << PULL_DOWN_BITS[tap]);
    }
}

#[test]
fn no_tap_is_ever_pulled_both_ways() {
    let states = [TriState::Low, TriState::High, TriState::HiZ];
    for a in states {
        for b in states {
            for c in states {
                for d in states {
                    let byte = encode(&[a, b, c, d]);
                    for tap in 0..4 {
                        let up = byte >> PULL_UP_BITS[tap] & 1 == 1;
                        let down = byte >> PULL_DOWN_BITS[tap] & 1 == 1;
                        assert!(!(up && down));
                    }
                }
            }
        }
    }
}

#[test]
fn pull_switch_chain_shifts_the_last_chip_first() {
    let mut chain = PullSwitchChain::<2>::new();
    assert_eq!(chain.frame(), [0, 0]);
    chain.set_output(0, 0, TriState::High);
    assert_eq!(chain.frame(), [0x00, 0x80]);
    chain.set_output(1, 3, TriState::Low);
    assert_eq!(chain.frame(), [0x04, 0x80]);
    assert_eq!(chain.get_output(1, 3), TriState::Low);
    assert_eq!(chain.get_output(1, 2), TriState::HiZ);
    chain.clear();
    assert_eq!(chain.frame(), [0, 0]);
    assert_eq!(TriState::default(), TriState::HiZ);
}

#[test]
fn quad_buffer_bytes_hold_two_bits_per_channel() {
    assert_eq!(quadbuf::encode(&[Buffer::Low, Buffer::High, Buffer::HiZ, Buffer::High]), 0xCE);
    assert_eq!(Buffer::High.bits(), 0b11);
    let mut chain = QuadBufferChain::<3>::new();
    chain.set_output(2, 1, Buffer::Low);
    assert_eq!(chain.frame(), [0, 0, 0b1000]);
    assert_eq!(chain.get_output(2, 1), Buffer::Low);
    assert_eq!(Buffer::default(), Buffer::HiZ);
}

#[test]
fn led_channels_are_capped_at_a_fifth_of_full_scale() {
    assert_eq!(limit_channel(255), MAX_CHANNEL_VALUE);
    assert_eq!(limit_channel(100), 20);
    assert_eq!(limit_channel(0), 0);
    assert_eq!(limit_color(RGB8::new(255, 100, 4)), RGB8::new(51, 20, 0));
    assert_eq!(
        limited_frame(&[RGB8::new(255, 255, 255), RGB8::default()]),
        [RGB8::new(51, 51, 51), RGB8::new(0, 0, 0)]
    );
}

#[test]
fn brightness_scales_every_channel() {
    assert_eq!(scale_channel(200, 127), 99);
    assert_eq!(scale_channel(200, 255), 200);
    assert_eq!(scale_channel(200, 0), 0);
    assert_eq!(scale_color(RGB8::new(255, 100, 0), 127), RGB8::new(127, 49, 0));
}

#[test]
fn strip_frames_apply_the_brightness() {
    let mut strip = LedStrip::<4>::new();
    assert_eq!(strip.brightness(), DEFAULT_BRIGHTNESS);
    assert_eq!(strip.frame(), [RGB8::default(); 4]);
    strip.set_color(1, RGB8::new(255, 100, 0));
    assert_eq!(strip.color(1), RGB8::new(255, 100, 0));
    assert_eq!(strip.frame()[1], RGB8::new(127, 49, 0));
    assert_eq!(strip.frame()[0], RGB8::default());
    strip.set_brightness(255);
    assert_eq!(strip.frame()[1], RGB8::new(255, 100, 0));
}

#[test]
fn the_wheel_always_adds_up_to_full_scale() {
    assert_eq!(wheel(0), RGB8::new(255, 0, 0));
    assert_eq!(wheel(128), RGB8::new(0, 126, 129));
    assert_eq!(wheel(255), RGB8::new(255, 0, 0));
    assert_eq!(wheel(85), RGB8::new(0, 255, 0));
    assert_eq!(wheel(170), RGB8::new(0, 0, 255));
    for position in 0..=255u8 {
        let c = wheel(position);
        assert_eq!(c.r as u32 + c.g as u32 + c.b as u32, 255);
    }
}

#[test]
fn led_hues_spread_over_the_wheel() {
    assert_eq!(led_hue(0, 8, 0), 0);
    assert_eq!(led_hue(1, 8, 0), 32);
    assert_eq!(led_hue(7, 8, 250), 218);
    assert_eq!(led_hue(2, 3, 10), 180);
}

#[test]
fn control_changes_become_usb_midi_packets() {
    let update = MidiUpdate { channel: 0, controller: 11, value: 64 };
    assert_eq!(update.packet(), Some([0x0B, 0xB0, 11, 64]));
    let update = MidiUpdate { channel: 9, controller: 7, value: 127 };
    assert_eq!(update.packet(), Some([0x0B, 0xB9, 7, 127]));
}

#[test]
fn out_of_range_control_changes() {
    assert_eq!(MidiUpdate { channel: 16, controller: 1, value: 1 }.packet(), None);
    assert_eq!(MidiUpdate { channel: 255, controller: 1, value: 1 }.packet(), None);
    assert_eq!(
        MidiUpdate { channel: 15, controller: 200, value: 128 }.packet(),
        Some([0x0B, 0xBF, 127, 127])
    );
}

#[test]
fn followed_modes_and_update_rates() {
    assert!(followed(JackMode::Tracking));
    assert!(followed(JackMode::Switch));
    assert!(followed(JackMode::Rheostat));
    assert!(!followed(JackMode::Open));
    assert!(!followed(JackMode::Empty));
    assert_eq!(updates_per_second(950, 5000), 190);
    assert_eq!(updates_per_second(7, 3000), 2);
}

#[test]
fn string_descriptors_count_utf16_units() {
    assert!(string_descriptor_fits(&"a".repeat(MAX_STRING_LENGTH)));
    assert!(!string_descriptor_fits(&"a".repeat(MAX_STRING_LENGTH + 1)));
    assert!(string_descriptor_fits(&"\u{1F3B9}".repeat(63)));
    assert!(!string_descriptor_fits(&"\u{1F3B9}".repeat(64)));
    assert!(string_descriptor_fits(""));
    assert!(UsbMidiConfig::default().strings_fit());
    let long = UsbMidiConfig { product: Box::leak("\u{20AC}\u{1F3B9}".repeat(43).into_boxed_str()), ..UsbMidiConfig::default() };
    assert!(!long.strings_fit());
}

#[test]
fn default_usb_identity() {
    let config = UsbMidiConfig::default();
    assert_eq!(config.vendor_id, 0x1209);
    assert_eq!(config.product_id, 0x0001);
    assert_eq!(config.manufacturer, "Amon Benson");
    assert_eq!(config.product, "Expression Adapter");
}

#[test]
fn a_flood_is_announced_once_and_ends_after_a_quiet_gap() {
    let mut tracker = BurstTracker::new();
    for event in 1..FLOOD_EVENT_COUNT as u64 {
        let outcome = tracker.record(event, 10);
        assert!(outcome.log_event);
        assert!(!outcome.flood_started);
        assert!(!tracker.flooding());
    }
    let outcome = tracker.record(FLOOD_EVENT_COUNT as u64, 10);
    assert!(outcome.flood_started);
    assert!(!outcome.log_event);
    assert!(tracker.flooding());
    let outcome = tracker.record(17, 10);
    assert!(!outcome.flood_started);
    assert!(!outcome.log_event);
    assert_eq!(outcome.flood_over_after, None);
    let outcome = tracker.record(100, 10);
    assert_eq!(outcome.flood_over_after, Some(17));
    assert!(outcome.log_event);
    assert!(!tracker.flooding());
}

#[test]
fn connection_follows_configuration_and_suspension() {
    let mut connection = ConnectionTracker::new();
    assert!(!connection.connected());
    connection.configured(true);
    assert!(connection.connected());
    connection.suspended(true);
    assert!(!connection.connected());
    connection.suspended(false);
    assert!(connection.connected());
    connection.enabled(true);
    assert!(connection.connected());
    connection.enabled(false);
    assert!(!connection.connected());
    connection.configured(true);
    connection.suspended(true);
    connection.reset();
    assert!(!connection.connected());
    connection.configured(true);
    assert!(connection.connected());
}

#[test]
fn web_values_mirror_the_monitor() {
    assert_eq!(ArmPull::from(Drive::High), ArmPull::Up);
    assert_eq!(ArmPull::from(Drive::Low), ArmPull::Down);
    assert_eq!(ArmPull::from(Drive::Floating), ArmPull::Floating);
    assert_eq!(WiperContact::Auto.arm(), None);
    assert_eq!(WiperContact::Tip.arm(), Some(0));
    assert_eq!(WiperContact::Ring.arm(), Some(1));
    assert_eq!(WiperContact::Sleeve.arm(), Some(2));
}

#[test]
fn pretend_pedals_sweep_a_quarter_period_apart() {
    assert_eq!(sweep_phase(0, 0), 0);
    assert_eq!(sweep_phase(0, 1), 1000);
    assert_eq!(sweep_phase(3500, 2), 1500);
    assert_eq!(sweep_phase(8000, 3), 3000);
    assert!(sweep_phase(123_456, 3) < SWEEP_PERIOD_MILLISECONDS);
}

#[test]
fn wifi_passwords_are_eight_to_sixty_three_printable_characters() {
    assert!(wpa2_password_valid("correct horse"));
    assert!(wpa2_password_valid("12345678"));
    assert!(wpa2_password_valid(&"~".repeat(63)));
    assert!(!wpa2_password_valid("1234567"));
    assert!(!wpa2_password_valid(&"a".repeat(64)));
    assert!(!wpa2_password_valid(""));
    assert!(!wpa2_password_valid("tab\tinside"));
    assert!(!wpa2_password_valid("caf\u{E9} au lait"));
}

#[test]
fn burst_tracker_remembers_the_last_event() {
    let mut tracker = BurstTracker::new();
    assert_eq!(tracker.last_event(), 0);
    tracker.record(42, 10);
    assert_eq!(tracker.last_event(), 42);
}
