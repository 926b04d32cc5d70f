//! Badges.

use vstd::prelude::*;
use crate::classes::prefixed;

verus! {

/// The colour scheme of a badge.
#[derive(Debug, Clone, Copy, PartialEq, Eq, Structural)]
pub enum BadgeDisplayType {
    Primary,
    Secondary,
    Info,
    Danger,
    Success,
    Warning,
}

impl BadgeDisplayType {
    /// The display type in lower case.
    pub open spec fn name(self) -> Seq<char> {
        match self {
            BadgeDisplayType::Primary => "primary"@,
            BadgeDisplayType::Secondary => "secondary"@,
            BadgeDisplayType::Info => "info"@,
            BadgeDisplayType::Danger => "danger"@,
            BadgeDisplayType::Success => "success"@,
            BadgeDisplayType::Warning => "warning"@,
        }
    }

    /// The display type in lower case.
    pub fn as_ref(&self) -> (name: &'static str)
        ensures
            name@ == self.name(),
    {
        match self {
            BadgeDisplayType::Primary => "primary",
            BadgeDisplayType::Secondary => "secondary",
            BadgeDisplayType::Info => "info",
            BadgeDisplayType::Danger => "danger",
            BadgeDisplayType::Success => "success",
            BadgeDisplayType::Warning => "warning",
        }
    }
}

impl Default for BadgeDisplayType {
    fn default() -> (value: Self)
        ensures
            value == BadgeDisplayType::Primary,
    {
        BadgeDisplayType::Primary
    }
}
/// The class of a badge of the given display type: `badge-` and its name.
pub fn get_display_class(display_type: BadgeDisplayType) -> (class: String)
    ensures
        class@ == "badge-"@ + display_type.name(),
{
    prefixed("badge-", display_type.as_ref())
}

} // verus!
