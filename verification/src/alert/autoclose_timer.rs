use vstd::prelude::*;
use crate::alert::enums::AutoCloseValue;

verus! {

/// The delay, in milliseconds, of an alert that is told to close by itself
/// without being told when.
pub const DEFAULT_TIME_TO_CLOSE: u32 = 10_000;

/// The delay after which an alert closes by itself, in milliseconds, or
/// `None` for an alert that stays.
pub open spec fn time_to_close(auto_close: Option<AutoCloseValue>) -> Option<u32> {
    match auto_close {
        Some(AutoCloseValue::Boolean(true)) => Some(DEFAULT_TIME_TO_CLOSE),
        Some(AutoCloseValue::Boolean(false)) => None,
        Some(AutoCloseValue::Number(ms)) => Some(ms),
        None => None,
    }
}

/// The delay after which an alert closes by itself: the default delay for
/// `Boolean(true)`, the given number of milliseconds for `Number`, and none
/// otherwise.
pub fn get_time_to_close(auto_close: Option<AutoCloseValue>) -> (delay: Option<u32>)
    ensures
        delay == time_to_close(auto_close),
{
    if let Some(auto_close) = auto_close {
        match auto_close {
            AutoCloseValue::Boolean(val) => match val {
                true => Some(DEFAULT_TIME_TO_CLOSE),
                false => None,
            },
            AutoCloseValue::Number(val) => Some(val),
        }
    } else {
        None
    }
}

/// What is left of a delay once the timer is paused: the delay less the time
/// that has run, if the alert has a timer and a delay and some of the delay is
/// left. An alert with nothing left has no delay any more.
pub open spec fn time_left(has_timer: bool, time_to_close: Option<u32>, elapsed: u32) -> Option<
    u32,
> {
    match time_to_close {
        Some(delay) => if has_timer && delay > elapsed {
            Some((delay - elapsed) as u32)
        } else {
            None
        },
        None => None,
    }
}

/// The delay that is left when the timer of an alert is paused `elapsed`
/// milliseconds after it was started.
pub fn pause(has_timer: bool, time_to_close: &Option<u32>, elapsed: u32) -> (left: Option<u32>)
    ensures
        left == time_left(has_timer, *time_to_close, elapsed),
{
    if has_timer {
        if let Some(delay) = time_to_close {
            let left: u32 = match delay.checked_sub(elapsed) {
                Some(rest) => rest,
                None => 0,
            };
            if left > 0 {
                return Some(left);
            }
        }
    }
    None
}

/// Whether the timer callbacks of an alert are set up: exactly when the
/// alert has a delay.
pub fn has_autoclose_callbacks(time_to_close: Option<u32>) -> (wanted: bool)
    ensures
        wanted == time_to_close.is_some(),
{
    time_to_close.is_some()
}

} // verus!
