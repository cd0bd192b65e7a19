use vstd::prelude::*;

use crate::clock::ClockTime;

verus! {

/// Ticks around the face, one per minute. Tick 0 points at three o'clock
/// and the ticks go clockwise.
pub const TICKS: u8 = 60;

/// Whether tick `tick` is an hour mark: a longer line with an hour label.
pub fn is_hour_mark(tick: u8) -> (r: bool)
    requires
        tick < TICKS,
    ensures
        r == (tick % 5 == 0),
{
    tick % 5 == 0
}

/// The hour written beside tick `tick`: tick 0 sits at three o'clock.
pub fn hour_label(tick: u8) -> (r: u8)
    requires
        tick < TICKS,
    ensures
        1 <= r <= 12,
        r % 12 == (tick / 5 + 3) % 12,
{
    (tick / 5 + 2) % 12 + 1
}

/// The minute written beside tick `tick`: tick 0 sits at minute 15.
pub fn minute_label(tick: u8) -> (r: u8)
    requires
        tick < TICKS,
    ensures
        1 <= r <= 60,
        r % 60 == (tick + 15) % 60,
{
    (tick + 14) % 60 + 1
}

/// The hour hand's angle for `t`, in 720ths of a turn clockwise from twelve
/// o'clock: a twelfth of a turn per hour, and a sixtieth of that per minute.
pub fn hour_hand_position(t: ClockTime) -> (r: u16)
    requires
        t.wf(),
    ensures
        r < 720,
        r == (t.minute_of_day() % 720),
{
    (t.hour % 12) as u16 * 60 + t.minute as u16
}

} // verus!
