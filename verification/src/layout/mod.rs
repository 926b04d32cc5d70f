//! Layout: grid columns and rows, containers and content rows.

use vstd::prelude::*;
use vstd::string::StringExecFns;

pub mod col;
pub mod container;
pub mod content_row;
pub mod row;
pub mod sheet;

verus! {

/// The sizes a component comes in.
#[derive(Debug, Clone, Copy, PartialEq, Eq, Structural)]
pub enum Sizing {
    Small,
    Medium,
    Large,
    XLarge,
}

impl Sizing {
    /// The size as class names abbreviate it.
    pub open spec fn name(self) -> Seq<char> {
        match self {
            Sizing::Small => "sm"@,
            Sizing::Medium => "md"@,
            Sizing::Large => "lg"@,
            Sizing::XLarge => "xl"@,
        }
    }

    /// The size as class names abbreviate it.
    pub fn as_ref(&self) -> (name: &'static str)
        ensures
            name@ == self.name(),
    {
        match self {
            Sizing::Small => "sm",
            Sizing::Medium => "md",
            Sizing::Large => "lg",
            Sizing::XLarge => "xl",
        }
    }

    /// The size as class names abbreviate it, as an owned string.
    pub fn to_string(&self) -> (text: String)
        ensures
            text@ == self.name(),
    {
        String::from_str(self.as_ref())
    }
}

} // verus!
