//! Alerts: their display types and variants, the classes these give, and the
//! time after which an alert closes by itself.

pub mod enums;
pub mod autoclose_timer;
pub mod alert;
