//! Date picker settings.

use vstd::prelude::*;

verus! {

/// The labels a date picker gives to assistive technology.
#[derive(Debug, Clone, Copy, PartialEq)]
pub struct AriaLabels {
    pub button_choose_date: &'static str,
    pub button_dot: &'static str,
    pub button_next_month: &'static str,
    pub button_previous_month: &'static str,
    pub input: Option<&'static str>,
}

/// The range of years a date picker offers.
#[derive(Debug, Clone, Copy, PartialEq, Eq, Structural)]
pub struct Years {
    pub end: u8,
    pub start: u8,
}

/// The days a week can start with.
#[derive(Debug, Clone, Copy, PartialEq, Eq, Structural)]
pub enum FirstDayOfWeek {
    Sunday,
    Monday,
    Tuesday,
    Wednesday,
    Thursday,
    Friday,
    Saturday,
}

impl FirstDayOfWeek {
    /// The number of the day, counted from Sunday as 0.
    pub open spec fn number(self) -> u8 {
        match self {
            FirstDayOfWeek::Sunday => 0u8,
            FirstDayOfWeek::Monday => 1u8,
            FirstDayOfWeek::Tuesday => 2u8,
            FirstDayOfWeek::Wednesday => 3u8,
            FirstDayOfWeek::Thursday => 4u8,
            FirstDayOfWeek::Friday => 5u8,
            FirstDayOfWeek::Saturday => 6u8,
        }
    }

    /// The number of the day, counted from Sunday as 0.
    pub fn index(&self) -> (number: u8)
        ensures
            number == self.number(),
            number < 7,
    {
        match self {
            FirstDayOfWeek::Sunday => 0,
            FirstDayOfWeek::Monday => 1,
            FirstDayOfWeek::Tuesday => 2,
            FirstDayOfWeek::Wednesday => 3,
            FirstDayOfWeek::Thursday => 4,
            FirstDayOfWeek::Friday => 5,
            FirstDayOfWeek::Saturday => 6,
        }
    }
}

} // verus!
