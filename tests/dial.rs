use clock_face::frame::{DialState, FrameInput, MinuteDrag};
use clock_face::{
    drag_carry, hour_hand_position, hour_label, is_hour_mark, minute_label, shift_hour,
    spinner_carry, wrap_hour, wrap_minute, ClockTime, Hour, TICKS,
};

fn at(hour: u8, minute: u8) -> ClockTime {
    ClockTime::new(hour, minute).unwrap()
}

fn spinners(raw_hour: i32, raw_minute: i32) -> FrameInput {
    FrameInput { raw_hour, raw_minute, held_minute: None, drag: None, now: None }
}

/// Runs one idle frame so that the spinner history matches the time shown.
fn at_rest(t: ClockTime) -> DialState {
    let mut s = DialState::new(t);
    s.step(&spinners(t.hour as i32, t.minute as i32));
    s
}

#[test]
fn new_time_checks_range() {
    assert_eq!(ClockTime::new(23, 59), Some(ClockTime { hour: 23, minute: 59 }));
    assert_eq!(ClockTime::new(24, 0), None);
    assert_eq!(ClockTime::new(0, 60), None);
}

#[test]
fn time_conversion_round_trip() {
    let t = time::Time::from_hms(17, 42, 9).unwrap();
    let c = ClockTime::from_time(t);
    assert_eq!(c, at(17, 42));
    let back = c.to_time();
    assert_eq!(back.hour(), 17);
    assert_eq!(back.minute(), 42);
    assert_eq!(back.second(), 0);
}

#[test]
fn wrapping_is_euclidean() {
    assert_eq!(wrap_hour(-1), 23);
    assert_eq!(wrap_hour(24), 0);
    assert_eq!(wrap_hour(49), 1);
    assert_eq!(wrap_hour(i32::MIN), 16);
    assert_eq!(wrap_minute(-1), 59);
    assert_eq!(wrap_minute(60), 0);
    assert_eq!(wrap_minute(-61), 59);
    assert_eq!(wrap_minute(i32::MAX), 7);
}

#[test]
fn hour_shifts_wrap_around_the_day() {
    assert_eq!(shift_hour(23, Hour::Next), 0);
    assert_eq!(shift_hour(0, Hour::Previous), 23);
    assert_eq!(shift_hour(12, Hour::Same), 12);
    assert_eq!(shift_hour(5, Hour::Next), 6);
}

#[test]
fn spinner_carry_across_the_hour() {
    assert_eq!(spinner_carry(59, 60), Hour::Next);
    assert_eq!(spinner_carry(0, -1), Hour::Previous);
    assert_eq!(spinner_carry(58, 62), Hour::Next);
    assert_eq!(spinner_carry(10, 11), Hour::Same);
    assert_eq!(spinner_carry(30, 30), Hour::Same);
}

#[test]
fn spinner_long_jump_does_not_carry() {
    assert_eq!(spinner_carry(0, 75), Hour::Same);
    assert_eq!(spinner_carry(59, 29), Hour::Same);
    assert_eq!(spinner_carry(i32::MIN, i32::MAX), Hour::Same);
}

#[test]
fn drag_carry_through_twelve() {
    assert_eq!(drag_carry(58, 2), Hour::Next);
    assert_eq!(drag_carry(2, 58), Hour::Previous);
    assert_eq!(drag_carry(10, 40), Hour::Same);
    assert_eq!(drag_carry(40, 10), Hour::Same);
    assert_eq!(drag_carry(0, 31), Hour::Previous);
    assert_eq!(drag_carry(7, 7), Hour::Same);
}

#[test]
fn face_labels() {
    assert_eq!(TICKS, 60);
    assert_eq!(hour_label(0), 3);
    assert_eq!(hour_label(15), 6);
    assert_eq!(hour_label(45), 12);
    assert_eq!(hour_label(59), 2);
    assert_eq!(minute_label(0), 15);
    assert_eq!(minute_label(45), 60);
    assert_eq!(minute_label(46), 1);
    assert!(is_hour_mark(0));
    assert!(is_hour_mark(55));
    assert!(!is_hour_mark(7));
    let mut hours = Vec::new();
    for tick in 0..TICKS {
        if is_hour_mark(tick) {
            hours.push(hour_label(tick));
        }
    }
    hours.sort();
    assert_eq!(hours, (1..=12).collect::<Vec<u8>>());
}

#[test]
fn hour_hand_positions() {
    assert_eq!(hour_hand_position(at(0, 0)), 0);
    assert_eq!(hour_hand_position(at(12, 0)), 0);
    assert_eq!(hour_hand_position(at(15, 30)), 210);
    assert_eq!(hour_hand_position(at(23, 59)), 719);
}

#[test]
fn spin_carries_and_wraps() {
    let s = at_rest(at(10, 59));
    assert_eq!(s.spin(10, 60), at(11, 0));
    let s = at_rest(at(0, 0));
    assert_eq!(s.spin(0, -1), at(23, 59));
    assert_eq!(s.spin(25, 0), at(1, 0));
}

#[test]
fn first_frame_has_no_history() {
    let s = DialState::new(at(8, 0));
    assert_eq!(s.prev_raw_minute, None);
    assert_eq!(s.spin(8, 61), at(8, 1));
}

#[test]
fn spinner_steps_across_midnight() {
    let mut s = at_rest(at(23, 59));
    s.step(&spinners(23, 60));
    assert_eq!(s.time, at(0, 0));
    assert_eq!(s.prev_raw_minute, Some(60));
    s.step(&spinners(0, 0));
    s.step(&spinners(0, -1));
    assert_eq!(s.time, at(23, 59));
}

#[test]
fn typed_minute_does_not_carry() {
    let mut s = at_rest(at(9, 5));
    s.step(&spinners(9, 50));
    assert_eq!(s.time, at(9, 50));
}

#[test]
fn drag_through_twelve_moves_hour() {
    let mut s = at_rest(at(6, 58));
    let mut i = spinners(6, 58);
    i.drag = Some(MinuteDrag { from: 58, to: 1 });
    s.step(&i);
    assert_eq!(s.time, at(7, 1));
    assert_eq!(s.prev_raw_minute, Some(58));

    let mut s = at_rest(at(0, 2));
    let mut i = spinners(0, 2);
    i.drag = Some(MinuteDrag { from: 2, to: 57 });
    s.step(&i);
    assert_eq!(s.time, at(23, 57));
}

#[test]
fn held_hand_sets_minute() {
    let mut s = at_rest(at(4, 10));
    let mut i = spinners(4, 10);
    i.held_minute = Some(20);
    i.drag = Some(MinuteDrag { from: 20, to: 21 });
    s.step(&i);
    assert_eq!(s.time, at(4, 21));
    assert_eq!(s.prev_raw_minute, Some(20));

    let mut s = at_rest(at(4, 10));
    let mut i = spinners(4, 10);
    i.held_minute = Some(33);
    s.step(&i);
    assert_eq!(s.time, at(4, 33));
}

#[test]
fn now_overrides_everything() {
    let mut s = at_rest(at(4, 10));
    let mut i = spinners(4, 70);
    i.drag = Some(MinuteDrag { from: 10, to: 50 });
    i.now = Some(at(13, 37));
    s.step(&i);
    assert_eq!(s.time, at(13, 37));
    assert_eq!(s.prev_raw_minute, Some(70));
}
