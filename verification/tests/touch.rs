use squiggly_lines::touch::line_height;
use squiggly_lines::touch::TouchState;
use squiggly_lines::touch::HEIGHT_FLOOR;
use squiggly_lines::touch::PRESSURE_FLOOR;

#[test]
fn floors_are_a_tenth() {
    assert_eq!(PRESSURE_FLOOR, 100_000);
    assert_eq!(HEIGHT_FLOOR, 100_000);
}

#[test]
fn a_new_tracker_is_all_zero() {
    let state = TouchState::new();
    assert_eq!(state.height(), 0);
    assert_eq!(state.prev_pressure(), 0);
    assert_eq!(state.prev_stage(), 0);
}

#[test]
fn light_pressure_at_stage_two() {
    let mut state = TouchState::new();
    state.on_pressure(50_000, 2);
    assert_eq!(state.height(), 150_000);
    assert_eq!(state.prev_pressure(), 50_000);
    assert_eq!(state.prev_stage(), 2);
}

#[test]
fn no_pressure_at_stage_zero() {
    let mut state = TouchState::new();
    state.on_pressure(0, 0);
    assert_eq!(state.height(), 100_000);
    assert_eq!(state.prev_pressure(), 0);
    assert_eq!(state.prev_stage(), 0);
}

#[test]
fn line_height_is_half_the_weighted_pressure() {
    assert_eq!(line_height(1_000_000, 1), 1_000_000);
    assert_eq!(line_height(250_000, 3), 500_000);
    assert_eq!(line_height(300_001, 0), 150_000);
    assert_eq!(line_height(333_333, 2), 499_999);
}

#[test]
fn line_height_floors_the_pressure() {
    assert_eq!(line_height(50_000, 2), 150_000);
    assert_eq!(line_height(0, 5), 300_000);
    assert_eq!(line_height(i32::MIN, 5), 300_000);
    assert_eq!(line_height(100_000, 1), 100_000);
}

#[test]
fn line_height_floors_the_height() {
    assert_eq!(line_height(0, 0), 100_000);
    assert_eq!(line_height(150_000, 0), 100_000);
    assert_eq!(line_height(500_000, -3), 100_000);
    assert_eq!(line_height(i32::MAX, i64::MIN), 100_000);
    assert_eq!(line_height(1_000_000, -1), 100_000);
}

#[test]
fn line_height_saturates() {
    assert_eq!(line_height(i32::MAX, i64::MAX), i32::MAX);
    assert_eq!(line_height(1_000_000, 1_000_000), i32::MAX);
}

#[test]
fn line_height_is_never_below_the_floor() {
    let pressures: [i32; 7] = [i32::MIN, -1, 0, 99_999, 100_000, 1_000_000, i32::MAX];
    let stages: [i64; 7] = [i64::MIN, -2, -1, 0, 1, 2, i64::MAX];
    for pressure in pressures {
        for stage in stages {
            assert!(line_height(pressure, stage) >= HEIGHT_FLOOR);
        }
    }
}

#[test]
fn every_report_replaces_the_remembered_one() {
    let mut state = TouchState::new();
    state.on_pressure(400_000, 1);
    assert_eq!(state.height(), 400_000);
    assert_eq!(state.prev_pressure(), 400_000);
    assert_eq!(state.prev_stage(), 1);
    // Same stage, new pressure.
    state.on_pressure(600_000, 1);
    assert_eq!(state.height(), 600_000);
    assert_eq!(state.prev_pressure(), 600_000);
    assert_eq!(state.prev_stage(), 1);
    // New stage.
    state.on_pressure(700_000, 2);
    assert_eq!(state.height(), 1_050_000);
    assert_eq!(state.prev_pressure(), 700_000);
    assert_eq!(state.prev_stage(), 2);
    // Release.
    state.on_pressure(0, 0);
    assert_eq!(state.height(), 100_000);
    assert_eq!(state.prev_pressure(), 0);
    assert_eq!(state.prev_stage(), 0);
}

#[test]
fn the_height_depends_on_the_report_alone() {
    let mut fresh = TouchState::new();
    fresh.on_pressure(250_000, 3);
    let mut used = TouchState::new();
    used.on_pressure(900_000, 7);
    used.on_pressure(250_000, 3);
    assert_eq!(fresh.height(), used.height());
    assert_eq!(fresh.height(), line_height(250_000, 3));
}
