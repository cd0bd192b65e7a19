use vstd::prelude::*;

verus! {

#[verifier::external_type_specification]
#[verifier::external_body]
pub struct ExTime(time::Time);

#[verifier::external_type_specification]
#[verifier::external_body]
pub struct ExComponentRange(time::error::ComponentRange);

/// Relies on `time::Time::from_hms`: it succeeds exactly when the hour is
/// below 24 and the minute and second are below 60.
pub assume_specification[ time::Time::from_hms ](hour: u8, minute: u8, second: u8) -> (r: Result<
    time::Time,
    time::error::ComponentRange,
>)
    ensures
        r.is_ok() <==> (hour < 24 && minute < 60 && second < 60),
;

/// Relies on `time::Time::hour`: the value is always in `0..24`.
pub assume_specification[ time::Time::hour ](t: time::Time) -> (r: u8)
    ensures
        r < 24,
;

/// Relies on `time::Time::minute`: the value is always in `0..60`.
pub assume_specification[ time::Time::minute ](t: time::Time) -> (r: u8)
    ensures
        r < 60,
;

/// A time of day to the minute, as shown by the dial.
#[derive(Clone, Copy, Debug, PartialEq, Eq, Structural)]
pub struct ClockTime {
    pub hour: u8,
    pub minute: u8,
}

/// Which way the hour moves when the minute hand passes twelve o'clock.
#[derive(Clone, Copy, Debug, PartialEq, Eq, Structural)]
pub enum Hour {
    Same,
    Next,
    Previous,
}

impl Hour {
    /// The signed number of hours this shift adds.
    pub open spec fn offset(self) -> int {
        match self {
            Hour::Same => 0,
            Hour::Next => 1,
            Hour::Previous => -1,
        }
    }
}

impl ClockTime {
    pub open spec fn wf(self) -> bool {
        self.hour < 24 && self.minute < 60
    }

    /// Minutes since midnight.
    pub open spec fn minute_of_day(self) -> int {
        self.hour * 60 + self.minute
    }

    /// The time `hour:minute`, if both are in range.
    pub fn new(hour: u8, minute: u8) -> (r: Option<ClockTime>)
        ensures
            r is Some <==> (hour < 24 && minute < 60),
            r matches Some(t) ==> t.hour == hour && t.minute == minute,
    {
        if hour < 24 && minute < 60 {
            Some(ClockTime { hour, minute })
        } else {
            None
        }
    }

    /// The hour and minute of a `time::Time`; seconds are dropped.
    pub fn from_time(t: time::Time) -> (r: ClockTime)
        ensures
            r.wf(),
    {
        ClockTime { hour: t.hour(), minute: t.minute() }
    }

    /// This time as a `time::Time` with zero seconds.
    pub fn to_time(&self) -> time::Time
        requires
            self.wf(),
    {
        time::Time::from_hms(self.hour, self.minute, 0).unwrap()
    }
}

/// `hour` moved by `shift`, wrapped into a day.
pub fn shift_hour(hour: u8, shift: Hour) -> (r: u8)
    requires
        hour < 24,
    ensures
        r == (hour + shift.offset()) % 24,
{
    match shift {
        Hour::Same => hour,
        Hour::Next => if hour == 23 {
            0
        } else {
            hour + 1
        },
        Hour::Previous => if hour == 0 {
            23
        } else {
            hour - 1
        },
    }
}

} // verus!
