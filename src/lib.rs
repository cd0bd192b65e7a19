//! An analog clock dial whose hands set a time of day.
//!
//! The library holds the integer logic of the dial: wrapping spinner values
//! into a time of day, carrying the hour when the minute crosses twelve
//! o'clock, the labels and hand positions of the face, and the per-frame
//! state machine that combines spinner input, a dragged minute hand and a
//! request for the current time.

pub mod carry;
pub mod clock;
pub mod dial;
pub mod frame;

pub use clock::{shift_hour, ClockTime, Hour};
pub use carry::{drag_carry, spinner_carry, wrap_hour, wrap_minute};
pub use dial::{hour_hand_position, hour_label, is_hour_mark, minute_label, TICKS};
pub use frame::{DialState, FrameInput, MinuteDrag};
