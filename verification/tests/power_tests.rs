use vexation::power::{
    PowerBar, PowerChange, PowerUp, PowerUpStatus, PowerDownType, PlayerData,
    move_power_units, move_distance, MAX_POWER_UNITS, CAPTURE_POWER_UNITS,
};

#[test]
fn accrual_grows_with_distance_and_doubles_in_home() {
    // outer track: 10 units per cell travelled
    assert_eq!(move_power_units(0, 4), 40);
    assert_eq!(move_power_units(0, 3), 30);
    assert!(move_power_units(0, 3) < move_power_units(0, 4));
    // home row: the same distance is worth twice as much
    assert_eq!(move_power_units(44, 48), 80);
    assert_eq!(2 * move_power_units(0, 4), move_power_units(44, 48));
}

#[test]
fn accrual_distances_are_special_cased() {
    // base exit to the start cell
    assert_eq!(move_distance(54, 0), 1);
    // base straight into the center is a fixed 7
    assert_eq!(move_distance(54, 53), 7);
    // entering the center counts to the entrance plus one
    assert_eq!(move_distance(3, 53), 3);
    assert_eq!(move_distance(10, 53), 8);
    assert_eq!(move_distance(20, 53), 10);
    // leaving the center counts from the center-exit cell
    assert_eq!(move_distance(53, 41), 1);
    assert_eq!(move_distance(53, 45), 5);
}

#[test]
fn power_bar_thresholds() {
    let mut bar = PowerBar::new();
    // a full bar crosses the first threshold, carrying the excess
    assert_eq!(bar.update(MAX_POWER_UNITS as i64), Some(PowerChange::Up));
    assert_eq!(bar.power, 0);
    assert_eq!(bar.power_up_count, 1);
    assert_eq!(bar.update(500), Some(PowerChange::Up));
    assert_eq!(bar.power, 20);
    assert_eq!(bar.power_up_count, 2);
    // the third threshold resets the bar
    assert_eq!(bar.update(470), Some(PowerChange::Up));
    assert_eq!(bar.power, 0);
    assert_eq!(bar.power_up_count, 3);
    // at three outstanding power-ups the bar is frozen
    assert_eq!(bar.update(100), None);
    assert_eq!(bar.power, 0);
}

#[test]
fn power_bar_clamps_at_zero() {
    let mut bar = PowerBar::new();
    assert_eq!(bar.update(100), None);
    assert_eq!(bar.power, 100);
    assert_eq!(bar.update(-(CAPTURE_POWER_UNITS as i64)), None);
    assert_eq!(bar.power, 0);
}

#[test]
fn status_ticks_down_and_clears_one_shots() {
    let mut status = PowerUpStatus::default();
    assert!(!status.evade_capture());
    assert_eq!(status.evade_capture_turns, 4);
    status.capture_nearest();
    status.home_run();
    assert_eq!(status.tick(), None);
    assert!(!status.capture_nearest && !status.home_run);
    assert_eq!(status.evade_capture_turns, 3);
    assert_eq!(status.tick(), None);
    assert_eq!(status.tick(), None);
    // the counter runs out on the fourth tick
    assert_eq!(status.tick(), Some(PowerDownType::Evading));
    assert_eq!(status.evade_capture_turns, 0);
    assert_eq!(status.tick(), None);
}

#[test]
fn status_reports_both_expiries() {
    let mut status = PowerUpStatus::default();
    status.evade_capture();
    assert!(!status.jump_self());
    status.evade_capture_turns = 1;
    status.jump_self_turns = 1;
    assert_eq!(status.tick(), Some(PowerDownType::EvadingAndSelfJumping));
}

#[test]
fn player_data_turn_bookkeeping() {
    let mut pd = PlayerData::default();
    assert_eq!(pd.end_of_turn(), None);
    assert_eq!(pd.consecutive_empty_turns, 1);
    pd.turn_move_count = 3;
    pd.end_of_turn();
    assert_eq!(pd.consecutive_empty_turns, 0);
    assert_eq!(pd.turn_move_count, 0);
}

#[test]
fn power_up_slots_fill_and_empty() {
    let mut pd = PlayerData::default();
    assert_eq!(pd.first_open_slot(), Some(0));
    assert_eq!(pd.grant_power_up(PowerUp::RollAgain), 0);
    assert_eq!(pd.grant_power_up(PowerUp::SelfJump), 1);
    assert_eq!(pd.first_open_slot(), Some(2));
    assert_eq!(pd.use_power_up(0), Some(PowerUp::RollAgain));
    assert_eq!(pd.use_power_up(0), None);
    // a slot index past the end yields nothing
    assert_eq!(pd.use_power_up(7), None);
    assert_eq!(pd.first_open_slot(), Some(0));
}

#[test]
fn power_up_drafting_order() {
    assert_eq!(PowerUp::from_index(0), PowerUp::RollAgain);
    assert_eq!(PowerUp::from_index(1), PowerUp::DoubleDice);
    assert_eq!(PowerUp::from_index(2), PowerUp::EvadeCapture);
    assert_eq!(PowerUp::from_index(3), PowerUp::SelfJump);
    assert_eq!(PowerUp::from_index(4), PowerUp::CaptureNearest);
    assert_eq!(PowerUp::from_index(5), PowerUp::HomeRun);
}
