use vstd::prelude::*;

use crate::carry::{
    abs, drag_carry, drag_shift, spinner_carry, spinner_shift, wrap_hour, wrap_minute,
};
use crate::clock::{shift_hour, ClockTime};

verus! {

/// A drag of the minute hand within one frame, as dial minutes: where the
/// hand was drawn and where the pointer now puts it.
#[derive(Clone, Copy, Debug, PartialEq, Eq, Structural)]
pub struct MinuteDrag {
    pub from: i32,
    pub to: u8,
}

/// What one frame of the user interface hands to the dial.
#[derive(Clone, Copy, Debug, PartialEq, Eq, Structural)]
pub struct FrameInput {
    /// The hour spinner's value, which may have left `0..24`.
    pub raw_hour: i32,
    /// The minute spinner's value, which may have left `0..60`.
    pub raw_minute: i32,
    /// The dial minute of the minute hand while it is held from an earlier
    /// frame's drag.
    pub held_minute: Option<u8>,
    /// The minute hand's drag in this frame, if any.
    pub drag: Option<MinuteDrag>,
    /// The current local time, when the user asked to snap to it.
    pub now: Option<ClockTime>,
}

impl FrameInput {
    pub open spec fn wf(self) -> bool {
        &&& (self.held_minute matches Some(m) ==> m < 60)
        &&& (self.drag matches Some(d) ==> d.to < 60)
        &&& (self.now matches Some(t) ==> t.wf())
    }
}

/// The dial's state between frames: the time it shows and the minute
/// spinner's last raw value, against which the next spinner step is judged.
#[derive(Clone, Copy, Debug, PartialEq, Eq, Structural)]
pub struct DialState {
    pub time: ClockTime,
    pub prev_raw_minute: Option<i32>,
}

impl DialState {
    pub open spec fn wf(self) -> bool {
        self.time.wf()
    }

    /// The minute spinner's previous raw value; on the first frame, the
    /// current one.
    pub open spec fn last_raw(self, raw_minute: int) -> int {
        match self.prev_raw_minute {
            Some(p) => p as int,
            None => raw_minute,
        }
    }

    /// The time the spinners give: both wrapped, and the hour carried when
    /// the minute spinner stepped across an hour.
    pub open spec fn spun(self, raw_hour: int, raw_minute: int) -> ClockTime {
        ClockTime {
            hour: ((raw_hour + spinner_shift(self.last_raw(raw_minute), raw_minute)) % 24) as u8,
            minute: (raw_minute % 60) as u8,
        }
    }

    /// The state after one frame with input `i`.
    pub open spec fn next(self, i: FrameInput) -> DialState {
        let spun = self.spun(i.raw_hour as int, i.raw_minute as int);
        let raw_minute = match i.held_minute {
            Some(m) => m as i32,
            None => i.raw_minute,
        };
        let set = match i.drag {
            Some(d) => ClockTime {
                hour: ((spun.hour + drag_shift(d.from as int, d.to as int)) % 24) as u8,
                minute: d.to,
            },
            None => ClockTime {
                hour: spun.hour,
                minute: match i.held_minute {
                    Some(m) => m,
                    None => spun.minute,
                },
            },
        };
        DialState {
            time: match i.now {
                Some(t) => t,
                None => set,
            },
            prev_raw_minute: Some(raw_minute),
        }
    }

    /// A dial showing `time`, with no spinner history.
    pub fn new(time: ClockTime) -> (r: DialState)
        requires
            time.wf(),
        ensures
            r.wf(),
            r.time == time,
            r.prev_raw_minute is None,
    {
        DialState { time, prev_raw_minute: None }
    }

    /// The time the spinners give in a frame where they read `raw_hour` and
    /// `raw_minute`. The hour hand is drawn at this time.
    pub fn spin(&self, raw_hour: i32, raw_minute: i32) -> (r: ClockTime)
        ensures
            r.wf(),
            r == self.spun(raw_hour as int, raw_minute as int),
    {
        let last = match self.prev_raw_minute {
            Some(p) => p,
            None => raw_minute,
        };
        let hour = shift_hour(wrap_hour(raw_hour), spinner_carry(last, raw_minute));
        proof {
            let s = spinner_shift(last as int, raw_minute as int);
            assert((raw_hour % 24 + s) % 24 == (raw_hour + s) % 24) by (nonlinear_arith);
        }
        ClockTime { hour, minute: wrap_minute(raw_minute) }
    }

    /// Advances the dial by one frame.
    pub fn step(&mut self, input: &FrameInput)
        requires
            old(self).wf(),
            input.wf(),
        ensures
            final(self).wf(),
            *final(self) == old(self).next(*input),
    {
        let spun = self.spin(input.raw_hour, input.raw_minute);
        let (raw_minute, minute) = match input.held_minute {
            Some(m) => (m as i32, m),
            None => (input.raw_minute, spun.minute),
        };
        let set = match input.drag {
            Some(d) => ClockTime {
                hour: shift_hour(spun.hour, drag_carry(d.from, d.to as i32)),
                minute: d.to,
            },
            None => ClockTime { hour: spun.hour, minute },
        };
        self.prev_raw_minute = Some(raw_minute);
        self.time = match input.now {
            Some(t) => t,
            None => set,
        };
    }
}

/// Minutes in a day.
pub open spec fn day_minutes() -> int {
    1440
}

/// A dial at rest, showing `s.time` with its spinners untouched, whose
/// minute spinner is stepped by fewer than thirty minutes and nothing else
/// happens, moves its time by exactly that step, across hour and day
/// boundaries alike.
pub proof fn lemma_spinner_step_is_continuous(s: DialState, i: FrameInput)
    requires
        s.wf(),
        i.wf(),
        s.prev_raw_minute == Some(s.time.minute as i32),
        i.raw_hour == s.time.hour,
        abs(i.raw_minute - s.time.minute) < 30,
        i.held_minute is None,
        i.drag is None,
        i.now is None,
    ensures
        s.next(i).time.minute_of_day() == (s.time.minute_of_day() + i.raw_minute - s.time.minute)
            % day_minutes(),
{
    let h = s.time.hour as int;
    let m = s.time.minute as int;
    let raw = i.raw_minute as int;
    let k = raw / 60;
    assert(spinner_shift(m, raw) == k);
    assert(((h + k) % 24) * 60 + raw % 60 == (h * 60 + raw) % 1440);
}

/// A dial at rest whose minute hand is dragged from where it shows to dial
/// minute `to`, with nothing else happening, moves its time the short way
/// round the dial: by at most half an hour, and by `to - from` up to a whole
/// turn of the hand.
pub proof fn lemma_drag_moves_short_way(s: DialState, i: FrameInput, to: u8)
    requires
        s.wf(),
        i.wf(),
        s.prev_raw_minute == Some(s.time.minute as i32),
        i.raw_hour == s.time.hour,
        i.raw_minute == s.time.minute,
        i.held_minute is None,
        i.drag == Some((MinuteDrag { from: s.time.minute as i32, to })),
        i.now is None,
    ensures
        ({
            let arc = to - s.time.minute + 60 * drag_shift(s.time.minute as int, to as int);
            &&& -30 <= arc <= 30
            &&& s.next(i).time.minute_of_day() == (s.time.minute_of_day() + arc) % day_minutes()
        }),
{
    let h = s.time.hour as int;
    let m = s.time.minute as int;
    let k = drag_shift(m, to as int);
    assert(spinner_shift(m, m) == 0);
    assert(((h + k) % 24) * 60 + to == (h * 60 + to - m + 60 * k + m) % 1440);
}

} // verus!
