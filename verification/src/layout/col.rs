//! Grid columns.

use vstd::prelude::*;
use vstd::string::StringExecFns;
use crate::classes::prefixed;

verus! {

/// The width of a grid column at one screen size.
#[derive(Debug, Clone, Copy, PartialEq, Eq, Structural)]
pub enum ColSize {
    Boolean(bool),
    Number(u8),
    Auto,
}

impl ColSize {
    /// The text the value is shown as: the name of the variant, except for `Auto`, which is shown as `lowercase`.
    pub open spec fn name(self) -> Seq<char> {
        match self {
            ColSize::Boolean(_) => "Boolean"@,
            ColSize::Number(_) => "Number"@,
            ColSize::Auto => "lowercase"@,
        }
    }

    /// The text the value is shown as: the name of the variant, except for `Auto`, which is shown as `lowercase`, as an owned string.
    pub fn to_string(&self) -> (text: String)
        ensures
            text@ == self.name(),
    {
        String::from_str(
            match self {
                ColSize::Boolean(_) => "Boolean",
                ColSize::Number(_) => "Number",
                ColSize::Auto => "lowercase",
            },
        )
    }
}
/// The screen sizes the grid tells apart.
#[derive(Debug, Clone, Copy, PartialEq, Eq, Structural)]
pub enum ScreenSize {
    Lg,
    Md,
    Sm,
    Xs,
    Xl,
}

impl ScreenSize {
    /// The screen size in lower case.
    pub open spec fn name(self) -> Seq<char> {
        match self {
            ScreenSize::Lg => "lg"@,
            ScreenSize::Md => "md"@,
            ScreenSize::Sm => "sm"@,
            ScreenSize::Xs => "xs"@,
            ScreenSize::Xl => "xl"@,
        }
    }

    /// The screen size in lower case.
    pub fn as_ref(&self) -> (name: &'static str)
        ensures
            name@ == self.name(),
    {
        match self {
            ScreenSize::Lg => "lg",
            ScreenSize::Md => "md",
            ScreenSize::Sm => "sm",
            ScreenSize::Xs => "xs",
            ScreenSize::Xl => "xl",
        }
    }

    /// The screen size in lower case, as an owned string.
    pub fn to_string(&self) -> (text: String)
        ensures
            text@ == self.name(),
    {
        String::from_str(self.as_ref())
    }
}
/// The widths given to a grid column: one for each screen size, and one for
/// all of them.
#[derive(Debug, Clone, Copy, PartialEq, Eq, Structural)]
pub struct ColWidths {
    pub lg: Option<ColSize>,
    pub md: Option<ColSize>,
    pub sm: Option<ColSize>,
    pub xs: Option<ColSize>,
    pub xl: Option<ColSize>,
    pub size: Option<ColSize>,
}

/// The least and the greatest number of grid units a column can span.
pub const MIN_COL_NUMBER: u8 = 1;

pub const MAX_COL_NUMBER: u8 = 12;

/// A width the grid has a class for: a number must lie between 1 and 12.
pub open spec fn valid_size(size: Option<ColSize>) -> bool {
    match size {
        Some(ColSize::Number(n)) => MIN_COL_NUMBER <= n <= MAX_COL_NUMBER,
        _ => true,
    }
}

/// The decimal digits of a number of grid units.
pub open spec fn units_text(n: u8) -> Seq<char> {
    if n == 1 {
        "1"@
    } else if n == 2 {
        "2"@
    } else if n == 3 {
        "3"@
    } else if n == 4 {
        "4"@
    } else if n == 5 {
        "5"@
    } else if n == 6 {
        "6"@
    } else if n == 7 {
        "7"@
    } else if n == 8 {
        "8"@
    } else if n == 9 {
        "9"@
    } else if n == 10 {
        "10"@
    } else if n == 11 {
        "11"@
    } else {
        "12"@
    }
}

/// The decimal digits of a number of grid units.
pub fn units_name(n: u8) -> (text: &'static str)
    requires
        MIN_COL_NUMBER <= n <= MAX_COL_NUMBER,
    ensures
        text@ == units_text(n),
{
    if n == 1 {
        "1"
    } else if n == 2 {
        "2"
    } else if n == 3 {
        "3"
    } else if n == 4 {
        "4"
    } else if n == 5 {
        "5"
    } else if n == 6 {
        "6"
    } else if n == 7 {
        "7"
    } else if n == 8 {
        "8"
    } else if n == 9 {
        "9"
    } else if n == 10 {
        "10"
    } else if n == 11 {
        "11"
    } else {
        "12"
    }
}

/// The class of a column width at a screen size, in words: none for no
/// width and for `Boolean(false)`; none for `Boolean(true)` on the smallest
/// screens, `col-` and the screen elsewhere; `col-`, the screen, a hyphen
/// and the number for a number; `col-`, the screen and `-auto` for `Auto`.
pub open spec fn col_size_class(size: Option<ColSize>, screen_size: ScreenSize) -> Option<
    Seq<char>,
> {
    match size {
        None => None,
        Some(ColSize::Boolean(val)) => if val && screen_size != ScreenSize::Xs {
            Some("col-"@ + screen_size.name())
        } else {
            None
        },
        Some(ColSize::Number(n)) => Some("col-"@ + screen_size.name() + "-"@ + units_text(n)),
        Some(ColSize::Auto) => Some("col-"@ + screen_size.name() + "-auto"@),
    }
}

/// The plain class `col` of a column that is given no width at all.
pub fn get_col_class(widths: &ColWidths) -> (class: Option<String>)
    ensures
        match class {
            Some(c) => c@ == "col"@ && widths.lg.is_none() && widths.md.is_none()
                && widths.sm.is_none() && widths.xs.is_none() && widths.xl.is_none()
                && widths.size.is_none(),
            None => widths.lg.is_some() || widths.md.is_some() || widths.sm.is_some()
                || widths.xs.is_some() || widths.xl.is_some() || widths.size.is_some(),
        },
{
    if widths.lg.is_none() && widths.md.is_none() && widths.sm.is_none() && widths.xs.is_none()
        && widths.xl.is_none() && widths.size.is_none() {
        Some(String::from_str("col"))
    } else {
        None
    }
}

/// The width on the smallest screens: the one given for them, else the one
/// given for all screens.
pub fn get_xs(widths: &ColWidths) -> (width: Option<ColSize>)
    ensures
        width == if widths.xs.is_some() {
            widths.xs
        } else {
            widths.size
        },
{
    if let Some(xs) = widths.xs {
        Some(xs)
    } else if let Some(size) = widths.size {
        Some(size)
    } else {
        None
    }
}

/// The class of a column width at a screen size.
pub fn get_col_size_class(size: &Option<ColSize>, screen_size: ScreenSize) -> (class: Option<
    String,
>)
    requires
        valid_size(*size),
    ensures
        match class {
            Some(c) => Some(c@) == col_size_class(*size, screen_size),
            None => col_size_class(*size, screen_size).is_none(),
        },
{
    if let Some(size) = size {
        match size {
            ColSize::Boolean(val) => {
                let smallest = match screen_size {
                    ScreenSize::Xs => true,
                    _ => false,
                };
                if *val && !smallest {
                    Some(prefixed("col-", screen_size.as_ref()))
                } else {
                    None
                }
            },
            ColSize::Number(val) => {
                let mut class = prefixed("col-", screen_size.as_ref());
                class.append("-");
                class.append(units_name(*val));
                Some(class)
            },
            ColSize::Auto => {
                let mut class = prefixed("col-", screen_size.as_ref());
                class.append("-auto");
                Some(class)
            },
        }
    } else {
        None
    }
}

/// Whether a width can be given to a column: `get_col_size_class` has a
/// class for every width but a number outside 1 to 12.
pub fn is_valid_size(size: &Option<ColSize>) -> (valid: bool)
    ensures
        valid == valid_size(*size),
{
    match size {
        Some(ColSize::Number(n)) => MIN_COL_NUMBER <= *n && *n <= MAX_COL_NUMBER,
        _ => true,
    }
}

} // verus!
