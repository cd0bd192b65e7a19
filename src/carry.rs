use vstd::prelude::*;

use crate::clock::Hour;

verus! {

/// Hours in a day.
pub const HOURS_PER_DAY: i32 = 24;

/// Minutes in an hour, and ticks around the dial.
pub const MINUTES_PER_HOUR: i32 = 60;

/// Half the dial: the spinner carries the hour only for steps shorter than
/// this, and a dragged hand that jumps farther went around through twelve.
pub const HALF_DIAL: i64 = 30;

pub open spec fn abs(x: int) -> int {
    if x < 0 {
        -x
    } else {
        x
    }
}

/// The hour shift for a minute spinner that went from `prev_raw` to `raw`:
/// a step shorter than half the dial carries the hour by the number of
/// whole hours it crossed; a longer step is taken as a typed value and
/// carries nothing.
pub open spec fn spinner_shift(prev_raw: int, raw: int) -> int {
    if abs(raw - prev_raw) < HALF_DIAL {
        raw / 60 - prev_raw / 60
    } else {
        0
    }
}

/// The hour shift for a minute hand dragged from dial minute `from` to `to`:
/// a jump of more than half the dial means the hand went the short way
/// through twelve o'clock.
pub open spec fn drag_shift(from: int, to: int) -> int {
    if abs(to - from) > HALF_DIAL {
        if to > from {
            -1
        } else {
            1
        }
    } else {
        0
    }
}

/// `x` wrapped into an hour of the day (euclidean remainder by 24).
pub fn wrap_hour(x: i32) -> (r: u8)
    ensures
        r == x % 24,
{
    let w = x.checked_rem_euclid(HOURS_PER_DAY).unwrap();
    w as u8
}

/// `x` wrapped into a minute of the hour (euclidean remainder by 60).
pub fn wrap_minute(x: i32) -> (r: u8)
    ensures
        r == x % 60,
{
    let w = x.checked_rem_euclid(MINUTES_PER_HOUR).unwrap();
    w as u8
}

/// How the hour moves when the minute spinner goes from `prev_raw` to `raw`.
pub fn spinner_carry(prev_raw: i32, raw: i32) -> (r: Hour)
    ensures
        r.offset() == spinner_shift(prev_raw as int, raw as int),
{
    let prev_norm = wrap_minute(prev_raw);
    let norm = wrap_minute(raw);
    let diff = raw as i64 - prev_raw as i64;
    let mut r = Hour::Same;
    if prev_norm != norm && -HALF_DIAL < diff && diff < HALF_DIAL {
        if raw < prev_raw && norm > prev_norm {
            r = Hour::Previous;
        }
        if raw > prev_raw && norm < prev_norm {
            r = Hour::Next;
        }
    }
    r
}

/// How the hour moves when the minute hand is dragged from dial minute
/// `from` to `to`.
pub fn drag_carry(from: i32, to: i32) -> (r: Hour)
    ensures
        r.offset() == drag_shift(from as int, to as int),
{
    let diff = to as i64 - from as i64;
    if from != to && (diff > HALF_DIAL || diff < -HALF_DIAL) {
        if to > from {
            Hour::Previous
        } else {
            Hour::Next
        }
    } else {
        Hour::Same
    }
}

} // verus!
