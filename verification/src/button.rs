//! Buttons: their styles and the classes a button carries.

use vstd::prelude::*;
use vstd::string::StringExecFns;
use crate::classes::prefixed;

verus! {

/// The styles a button comes in.
#[derive(Debug, Clone, Copy, PartialEq, Eq, Structural)]
pub enum ButtonDisplayType {
    Primary,
    Secondary,
    Link,
    Success,
    Warning,
    Danger,
    Info,
    Unstyled,
    Base,
}

impl ButtonDisplayType {
    /// The style in lower case.
    pub open spec fn name(self) -> Seq<char> {
        match self {
            ButtonDisplayType::Primary => "primary"@,
            ButtonDisplayType::Secondary => "secondary"@,
            ButtonDisplayType::Link => "link"@,
            ButtonDisplayType::Success => "success"@,
            ButtonDisplayType::Warning => "warning"@,
            ButtonDisplayType::Danger => "danger"@,
            ButtonDisplayType::Info => "info"@,
            ButtonDisplayType::Unstyled => "unstyled"@,
            ButtonDisplayType::Base => "base"@,
        }
    }

    /// The style in lower case.
    pub fn as_ref(&self) -> (name: &'static str)
        ensures
            name@ == self.name(),
    {
        match self {
            ButtonDisplayType::Primary => "primary",
            ButtonDisplayType::Secondary => "secondary",
            ButtonDisplayType::Link => "link",
            ButtonDisplayType::Success => "success",
            ButtonDisplayType::Warning => "warning",
            ButtonDisplayType::Danger => "danger",
            ButtonDisplayType::Info => "info",
            ButtonDisplayType::Unstyled => "unstyled",
            ButtonDisplayType::Base => "base",
        }
    }
}

impl Default for ButtonDisplayType {
    fn default() -> (value: Self)
        ensures
            value == ButtonDisplayType::Primary,
    {
        ButtonDisplayType::Primary
    }
}
/// The styles of a button before the bare `Base` style was added.
#[derive(Debug, Clone, Copy, PartialEq, Eq, Structural)]
pub enum DisplayType {
    Primary,
    Secondary,
    Link,
    Success,
    Warning,
    Danger,
    Info,
    Unstyled,
}

impl DisplayType {
    /// The style in lower case.
    pub open spec fn name(self) -> Seq<char> {
        match self {
            DisplayType::Primary => "primary"@,
            DisplayType::Secondary => "secondary"@,
            DisplayType::Link => "link"@,
            DisplayType::Success => "success"@,
            DisplayType::Warning => "warning"@,
            DisplayType::Danger => "danger"@,
            DisplayType::Info => "info"@,
            DisplayType::Unstyled => "unstyled"@,
        }
    }

    /// The style in lower case, as an owned string.
    pub fn to_string(&self) -> (text: String)
        ensures
            text@ == self.name(),
    {
        String::from_str(
            match self {
                DisplayType::Primary => "primary",
                DisplayType::Secondary => "secondary",
                DisplayType::Link => "link",
                DisplayType::Success => "success",
                DisplayType::Warning => "warning",
                DisplayType::Danger => "danger",
                DisplayType::Info => "info",
                DisplayType::Unstyled => "unstyled",
            },
        )
    }
}

impl Default for DisplayType {
    fn default() -> (value: Self)
        ensures
            value == DisplayType::Primary,
    {
        DisplayType::Primary
    }
}
/// What decides the classes of a button.
#[derive(Debug, Clone, Copy, PartialEq, Eq, Structural)]
pub struct ButtonStyle {
    pub alert: bool,
    pub block: bool,
    pub borderless: bool,
    pub display_type: ButtonDisplayType,
    pub monospaced: Option<bool>,
    pub outline: bool,
    pub small: bool,
}

/// `class` with a space before it where `wanted`, and nothing otherwise.
pub open spec fn spaced(wanted: bool, class: Seq<char>) -> Seq<char> {
    if wanted {
        " "@ + class
    } else {
        Seq::empty()
    }
}

impl ButtonStyle {
    /// The button is filled with the colour of its style.
    pub open spec fn filled(self) -> bool {
        !self.outline && !self.borderless && self.display_type != ButtonDisplayType::Base
    }

    /// The button is outlined in the colour of its style.
    pub open spec fn outlined(self) -> bool {
        self.outline || (self.borderless && self.display_type != ButtonDisplayType::Base)
    }

    /// The classes of the button, separated by single spaces: `btn` first,
    /// then one class for each flag that is set, then the class of the style.
    pub open spec fn classes(self) -> Seq<char> {
        "btn"@ + spaced(self.alert, "alert-btn"@) + spaced(self.block, "btn-block"@) + spaced(
            self.monospaced == Some(true),
            "btn-monospaced"@,
        ) + spaced(self.borderless, "btn-outline-borderless"@) + spaced(self.small, "btn-sm"@)
            + spaced(self.filled(), "btn-"@ + self.display_type.name()) + spaced(
            self.outlined(),
            "btn-outline-"@ + self.display_type.name(),
        )
    }

    /// The classes of the button, separated by single spaces.
    pub fn get_classes(&self) -> (classes: String)
        ensures
            classes@ == self.classes(),
    {
        let monospaced = match self.monospaced {
            Some(m) => m,
            None => false,
        };
        let based = match self.display_type {
            ButtonDisplayType::Base => true,
            _ => false,
        };
        let filled = prefixed("btn-", self.display_type.as_ref());
        let outlined = prefixed("btn-outline-", self.display_type.as_ref());
        let mut classes = String::from_str("btn");
        append_spaced(&mut classes, self.alert, "alert-btn");
        append_spaced(&mut classes, self.block, "btn-block");
        append_spaced(&mut classes, monospaced, "btn-monospaced");
        append_spaced(&mut classes, self.borderless, "btn-outline-borderless");
        append_spaced(&mut classes, self.small, "btn-sm");
        append_spaced(&mut classes, !self.outline && !self.borderless && !based, filled.as_str());
        append_spaced(&mut classes, self.outline || self.borderless && !based, outlined.as_str());
        classes
    }
}

/// A button that shows an icon in place of a label.
#[derive(Debug, Clone, Copy)]
pub struct ClayButtonWithIcon {}

impl ClayButtonWithIcon {
    /// An icon button is monospaced unless it is told not to be.
    pub fn get_monospaced(monospaced: Option<bool>) -> (mono: bool)
        ensures
            mono == (monospaced != Some(false)),
    {
        match monospaced {
            Some(m) => m,
            None => true,
        }
    }

    /// The type of the button: the one given, or `button` where none is.
    pub fn get_type<'a>(given: &'a str) -> (kind: &'a str)
        ensures
            kind@ == if given@.len() == 0 {
                "button"@
            } else {
                given@
            },
    {
        if given.is_empty() {
            "button"
        } else {
            given
        }
    }
}

/// The class of a group of buttons, laid out in a row or in a column.
pub fn get_group_class(vertical: bool) -> (class: String)
    ensures
        class@ == if vertical {
            "btn-group-vertical"@
        } else {
            "btn-group"@
        },
{
    if vertical {
        String::from_str("btn-group-vertical")
    } else {
        String::from_str("btn-group")
    }
}

/// Adds a space and `class` to `classes` where `wanted`.
pub fn append_spaced(classes: &mut String, wanted: bool, class: &str)
    ensures
        final(classes)@ == old(classes)@ + spaced(wanted, class@),
{
    if wanted {
        classes.append(" ");
        classes.append(class);
        assert(classes@ =~= old(classes)@ + (" "@ + class@));
    } else {
        assert(classes@ =~= old(classes)@ + Seq::<char>::empty());
    }
}

} // verus!
