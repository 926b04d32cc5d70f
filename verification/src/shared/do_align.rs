//! The settings by which one element is aligned to another.

use vstd::prelude::*;
use crate::text::str_eq;

verus! {

/// A corner of an element.
#[derive(Debug, Clone, Copy, PartialEq, Eq, Structural)]
pub enum Point {
    TopRight,
    ButtomLeft,
}

/// What may be adjusted where the aligned element would leave the visible
/// area.
#[derive(Debug, Clone, Copy, PartialEq, Eq, Structural)]
pub struct Overflow {
    pub adjust_x: bool,
    pub adjust_y: bool,
    pub always_by_viewport: bool,
}

impl Default for Overflow {
    fn default() -> (overflow: Self)
        ensures
            overflow == (Overflow { adjust_x: false, adjust_y: false, always_by_viewport: false }),
    {
        Overflow { adjust_x: false, adjust_y: false, always_by_viewport: false }
    }
}

/// The settings of an alignment. A setting that was never made is `None`.
#[derive(Debug, Clone, Copy, PartialEq, Eq)]
pub struct AlignConfig {
    pub offset: Option<[u8; 2]>,
    pub overflow: Option<Overflow>,
    pub points: Option<[Point; 2]>,
    pub target_offset: Option<[Point; 2]>,
    pub use_css_right: bool,
}

impl Default for AlignConfig {
    fn default() -> (config: Self)
        ensures
            config == AlignConfig::unset(),
    {
        AlignConfig {
            offset: None,
            overflow: None,
            points: None,
            target_offset: None,
            use_css_right: false,
        }
    }
}

impl AlignConfig {
    /// The settings with nothing set.
    pub open spec fn unset() -> AlignConfig {
        AlignConfig {
            offset: None,
            overflow: None,
            points: None,
            target_offset: None,
            use_css_right: false,
        }
    }

    /// Settings with nothing set.
    pub fn new() -> (config: Self)
        ensures
            config == AlignConfig::unset(),
    {
        AlignConfig {
            offset: None,
            overflow: None,
            points: None,
            target_offset: None,
            use_css_right: false,
        }
    }

    /// Sets the offset of the aligned element and nothing else.
    pub fn set_offset(&mut self, offset: [u8; 2])
        ensures
            *final(self) == (AlignConfig { offset: Some(offset), ..*old(self) }),
    {
        self.offset = Some(offset)
    }

    /// Sets the overflow handling and nothing else.
    pub fn set_overflow(&mut self, overflow: Overflow)
        ensures
            *final(self) == (AlignConfig { overflow: Some(overflow), ..*old(self) }),
    {
        self.overflow = Some(overflow)
    }

    /// Sets the corners that are brought together and nothing else.
    pub fn set_points(&mut self, points: [Point; 2])
        ensures
            *final(self) == (AlignConfig { points: Some(points), ..*old(self) }),
    {
        self.points = Some(points)
    }

    /// Sets the offset of the target element and nothing else.
    pub fn set_target_offset(&mut self, points: [Point; 2])
        ensures
            *final(self) == (AlignConfig { target_offset: Some(points), ..*old(self) }),
    {
        self.target_offset = Some(points)
    }

    /// Sets whether the element is placed from the right and nothing else.
    pub fn set_use_css_right(&mut self, use_css_right: bool)
        ensures
            *final(self) == (AlignConfig { use_css_right, ..*old(self) }),
    {
        self.use_css_right = use_css_right
    }
}

/// Where an element is placed from: from the right in text that runs from
/// right to left, and also where the direction cannot be told.
pub fn is_rtl(direction: Option<&str>) -> (rtl: bool)
    ensures
        rtl == match direction {
            Some(d) => d@ == "rtl"@,
            None => true,
        },
{
    match direction {
        Some(d) => str_eq(d, "rtl"),
        None => true,
    }
}

} // verus!
