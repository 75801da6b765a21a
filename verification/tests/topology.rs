use expad::hal::buf::TriState;
use expad::topology::monitor::{
    end_stop_wiper, hinted_wiper, ElementKind, next_mode, next_rail, pair_drives, plug_check_changed,
    plug_check_drives, rail_drives, rails_stale, ring_sleeve_end_stop, Classification,
    ElementRead, MonitorEvent, TrackRead, TrackSchedule, TwoTerminalSchedule,
};
use expad::topology::scanner::{earliest_due, next_jacks, tri_state};
use expad::topology::sequence::{
    next_pair, other_arm, record_slot, shared_arm, solve_route, taken, SolveRoute, PAIR_SEQUENCE,
};
use expad::topology::{pair_read_order, track_ends, Drive, JackMode, GROUNDED_END};

#[test]
fn track_runs_up_from_the_grounded_end() {
    assert_eq!(track_ends(0), (2, 1));
    assert_eq!(track_ends(1), (2, 0));
    assert_eq!(track_ends(2), (0, 1));
    assert_eq!(track_ends(0).0, GROUNDED_END);
}

#[test]
fn floating_arm_is_read_last() {
    assert_eq!(pair_read_order(0, 1), [0, 1, 2]);
    assert_eq!(pair_read_order(0, 2), [0, 2, 1]);
    assert_eq!(pair_read_order(2, 1), [2, 1, 0]);
}

#[test]
fn pairs_keep_the_first_arm_high_for_the_first_two_measurements() {
    assert_eq!(PAIR_SEQUENCE, [(0, 1), (0, 2), (1, 2)]);
    assert_eq!(next_pair([None, None, None]), Some((0, 1)));
    assert_eq!(next_pair([Some(true), None, None]), Some((0, 2)));
    assert_eq!(next_pair([Some(false), Some(false), None]), Some((1, 2)));
    assert_eq!(next_pair([Some(false), Some(false), Some(true)]), None);
    assert_eq!(taken([Some(true), Some(false), None]), 2);
    assert_eq!(record_slot([Some(true), None, None]), Some(1));
    assert_eq!(record_slot([Some(true), Some(true), Some(true)]), None);
}

#[test]
fn solve_routes_for_every_pattern_of_conducting_pairs() {
    assert_eq!(solve_route([None, None, None]), SolveRoute::MeasurePair { high: 0, low: 1 });
    assert_eq!(solve_route([Some(false), None, None]), SolveRoute::MeasurePair { high: 0, low: 2 });
    assert_eq!(solve_route([Some(true), Some(true), None]), SolveRoute::FromBoth);
    assert_eq!(
        solve_route([Some(true), Some(false), None]),
        SolveRoute::FromSingle { measurement: 0, isolated: 2 }
    );
    assert_eq!(
        solve_route([Some(false), Some(true), None]),
        SolveRoute::FromSingle { measurement: 1, isolated: 1 }
    );
    assert_eq!(solve_route([Some(false), Some(false), None]), SolveRoute::MeasurePair { high: 1, low: 2 });
    assert_eq!(
        solve_route([Some(false), Some(false), Some(true)]),
        SolveRoute::FromSingle { measurement: 2, isolated: 0 }
    );
    assert_eq!(solve_route([Some(false), Some(false), Some(false)]), SolveRoute::Disconnected);
    // A third pair recorded after both first pairs conducted changes nothing.
    assert_eq!(solve_route([Some(true), Some(true), Some(true)]), SolveRoute::FromBoth);
}

#[test]
fn single_conducting_pair_never_drives_the_isolated_arm() {
    for conducts in [
        [Some(true), Some(false), None],
        [Some(false), Some(true), None],
        [Some(false), Some(false), Some(true)],
    ] {
        match solve_route(conducts) {
            SolveRoute::FromSingle { measurement, isolated } => {
                let (high, low) = PAIR_SEQUENCE[measurement];
                assert_eq!(conducts[measurement], Some(true));
                assert_ne!(high, isolated);
                assert_ne!(low, isolated);
            }
            other => panic!("unexpected route {:?}", other),
        }
    }
}

#[test]
fn two_pairs_share_one_arm() {
    assert_eq!(shared_arm((0, 1), (0, 2)), 0);
    assert_eq!(shared_arm((0, 2), (1, 2)), 2);
    assert_eq!(shared_arm((0, 1), (1, 2)), 1);
    assert_eq!(other_arm((0, 2), 0), 2);
    assert_eq!(other_arm((1, 2), 2), 1);
}

#[test]
fn drives_for_rails_plug_checks_and_pairs() {
    assert_eq!(rail_drives(Drive::High), [Drive::High, Drive::High, Drive::High, Drive::Floating]);
    assert_eq!(rail_drives(Drive::Low), [Drive::Low, Drive::Low, Drive::Low, Drive::Floating]);
    assert_eq!(plug_check_drives(), [Drive::Low, Drive::Floating, Drive::Floating, Drive::High]);
    assert_eq!(pair_drives(1, 2), [Drive::Floating, Drive::High, Drive::Low, Drive::Floating]);
}

#[test]
fn rails_are_averaged_high_first() {
    assert_eq!(next_rail(Drive::High, 0), Some((Drive::High, 1)));
    assert_eq!(next_rail(Drive::High, 2), Some((Drive::Low, 0)));
    assert_eq!(next_rail(Drive::Low, 1), Some((Drive::Low, 2)));
    assert_eq!(next_rail(Drive::Low, 2), None);
}

#[test]
fn rails_go_stale_after_the_refresh_interval() {
    assert!(rails_stale(None, 5, 10));
    assert!(rails_stale(Some(0), 11, 10));
    assert!(!rails_stale(Some(0), 10, 10));
    assert!(!rails_stale(Some(20), 10, 10));
}

#[test]
fn end_stop_wiper_prefers_the_setting_then_memory_then_tip_then_ring() {
    assert_eq!(end_stop_wiper([1, 2], Some(2), Some(1)), 2);
    assert_eq!(end_stop_wiper([1, 2], Some(0), Some(1)), 1);
    assert_eq!(end_stop_wiper([1, 2], None, None), 1);
    assert_eq!(end_stop_wiper([2, 0], None, None), 0);
    assert_eq!(end_stop_wiper([2, 0], None, Some(2)), 2);
    assert_eq!(hinted_wiper([1, 2], Some(0)), 1);
    assert_eq!(hinted_wiper([1, 2], Some(2)), 2);
    assert_eq!(hinted_wiper([1, 2], None), 1);
    assert!(ring_sleeve_end_stop([1, 2]));
    assert!(ring_sleeve_end_stop([2, 1]));
    assert!(!ring_sleeve_end_stop([0, 2]));
}

#[test]
fn track_schedule_reads_both_ends_before_the_wiper() {
    let mut schedule = TrackSchedule::new(1, 100, 50);
    assert_eq!((schedule.low_end, schedule.high_end), (2, 0));
    assert_eq!(schedule.next, TrackRead::HighEnd);
    assert_eq!(schedule.next_end_read_at, 150);
    let (drives, contact) = schedule.reading();
    assert_eq!(drives, [Drive::High, Drive::Floating, Drive::Low, Drive::Floating]);
    assert_eq!(contact, 0);

    schedule.advance(false, true, 110, 50);
    assert_eq!(schedule.next, TrackRead::LowEnd);
    assert_eq!(schedule.reading().1, 2);
    schedule.advance(true, true, 120, 50);
    assert_eq!(schedule.next, TrackRead::Wiper);
    assert_eq!(schedule.reading().1, 1);
    schedule.advance(true, true, 150, 50);
    assert_eq!(schedule.next, TrackRead::HighEnd);
    assert_eq!(schedule.next_end_read_at, 200);
    schedule.advance(true, true, 160, 50);
    assert_eq!(schedule.next, TrackRead::Wiper);
    schedule.advance(true, true, 200, 50);
    assert_eq!(schedule.next, TrackRead::LowEnd);
    assert_eq!(schedule.next_end_read_at, 250);
}

#[test]
fn two_terminal_schedule_interleaves_plug_and_ring_checks() {
    let mut schedule = TwoTerminalSchedule::new(true, false, 0, 100, 30, 1000);
    assert_eq!(schedule.next, ElementRead::Tip);
    let (drives, contact) = schedule.reading();
    assert_eq!(drives, [Drive::High, Drive::Floating, Drive::Low, Drive::Floating]);
    assert_eq!(contact, 0);

    schedule.advance(10, 100, 30);
    assert_eq!(schedule.next, ElementRead::Tip);
    schedule.advance(40, 100, 30);
    assert_eq!(schedule.next, ElementRead::Ring);
    assert_eq!(schedule.next_ring_check_at, 70);
    assert_eq!(schedule.reading().1, 1);
    schedule.advance(50, 100, 30);
    assert_eq!(schedule.next, ElementRead::Tip);
    schedule.advance(100, 100, 30);
    assert_eq!(schedule.next, ElementRead::PlugCheck);
    assert_eq!(schedule.next_plug_check_at, 200);
    let (drives, contact) = schedule.reading();
    assert_eq!(drives, [Drive::Low, Drive::Floating, Drive::Floating, Drive::High]);
    assert_eq!(contact, 3);
    assert!(!schedule.solve_due(5000));
}

#[test]
fn a_mismatching_ring_check_is_confirmed_right_after_the_next_tip_reading() {
    let mut schedule = TwoTerminalSchedule::new(true, false, 0, 100, 30, 1000);
    schedule.ring_mismatch = true;
    schedule.advance(10, 100, 30);
    assert_eq!(schedule.next, ElementRead::Ring);
    assert_eq!(schedule.next_ring_check_at, 30);
}

#[test]
fn open_plugs_are_solved_again_on_their_interval() {
    let schedule = TwoTerminalSchedule::new(false, true, 0, 100, 30, 1000);
    assert!(!schedule.solve_due(999));
    assert!(schedule.solve_due(1000));
}

#[test]
fn plug_checks_decide_whether_a_jack_is_empty() {
    for mode in [JackMode::Empty, JackMode::Tracking, JackMode::Open, JackMode::Other] {
        assert_eq!(next_mode(mode, MonitorEvent::PlugCheck { plugged: false }), JackMode::Empty);
    }
    assert_eq!(next_mode(JackMode::Empty, MonitorEvent::PlugCheck { plugged: true }), JackMode::Identifying);
    assert_eq!(next_mode(JackMode::Identifying, MonitorEvent::PlugCheck { plugged: true }), JackMode::Open);
    assert!(!plug_check_changed(JackMode::Empty, false));
    assert!(plug_check_changed(JackMode::Empty, true));
    assert!(plug_check_changed(JackMode::Tracking, false));
    assert!(!plug_check_changed(JackMode::Open, true));
}

#[test]
fn classifications_pick_how_the_jack_is_followed() {
    let classified = |c| next_mode(JackMode::Identifying, MonitorEvent::Classified(c));
    assert_eq!(classified(Classification::Potentiometer), JackMode::Tracking);
    assert_eq!(classified(Classification::RheostatBehindMonoPlug), JackMode::Rheostat);
    assert_eq!(classified(Classification::TipSleeveElement { rheostat: false }), JackMode::Switch);
    assert_eq!(classified(Classification::TipSleeveElement { rheostat: true }), JackMode::Rheostat);
    assert_eq!(classified(Classification::Other), JackMode::Other);
    assert_eq!(classified(Classification::Disconnected), JackMode::Identifying);
    assert_eq!(next_mode(JackMode::Tracking, MonitorEvent::LostTrack), JackMode::Identifying);
    assert_eq!(next_mode(JackMode::Open, MonitorEvent::Conducts), JackMode::Identifying);
    assert_eq!(next_mode(JackMode::Tracking, MonitorEvent::SolveRejected), JackMode::Tracking);
    assert_eq!(next_mode(JackMode::Switch, MonitorEvent::ElementRead { rheostat: true }), JackMode::Rheostat);
}

#[test]
fn drives_map_onto_the_pull_switches() {
    assert_eq!(tri_state(Drive::High), TriState::High);
    assert_eq!(tri_state(Drive::Low), TriState::Low);
    assert_eq!(tri_state(Drive::Floating), TriState::HiZ);
}

#[test]
fn each_adc_reads_the_jack_due_longest() {
    let adcs = [0, 0, 1, 1];
    assert_eq!(next_jacks::<4, 2>([10, 20, 30, 5], 40, adcs), [Some(0), Some(3)]);
    assert_eq!(next_jacks::<4, 2>([20, 10, 30, 30], 40, adcs), [Some(1), Some(2)]);
    // Jacks not yet due wait, however overdue the others on their ADC.
    assert_eq!(next_jacks::<4, 2>([50, 10, 60, 70], 40, adcs), [Some(1), None]);
    assert_eq!(next_jacks::<4, 3>([0; 4], 0, adcs)[2], None);
}

#[test]
fn two_tracked_jacks_on_one_adc_take_turns() {
    // A jack read at `now` is due again from `now`, so the other one, due longer, goes next.
    let adcs = [0, 0];
    let mut due_at = [100u64, 100];
    assert_eq!(next_jacks::<2, 1>(due_at, 100, adcs), [Some(0)]);
    due_at[0] = 104;
    assert_eq!(next_jacks::<2, 1>(due_at, 104, adcs), [Some(1)]);
    due_at[1] = 108;
    assert_eq!(next_jacks::<2, 1>(due_at, 108, adcs), [Some(0)]);
}

#[test]
fn earliest_due_time() {
    assert_eq!(earliest_due([5u64, 3, 9]), Some(3));
    assert_eq!(earliest_due([7u64]), Some(7));
    assert_eq!(earliest_due::<0>([]), None);
}

#[test]
fn readings_between_closed_and_open_make_a_rheostat_for_good() {
    let mut element = ElementKind::unknown();
    element.record(true, 3);
    element.record(true, 3);
    assert!(!element.rheostat);
    element.record(false, 3);
    assert_eq!(element.between_readings, 0);
    element.record(true, 3);
    element.record(true, 3);
    element.record(true, 3);
    assert!(element.rheostat);
    assert_eq!(element.between_readings, 3);
    element.record(false, 3);
    assert!(element.rheostat);
    assert_eq!(element.between_readings, 0);
}

