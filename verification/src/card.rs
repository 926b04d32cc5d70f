//! Cards.

use vstd::prelude::*;
use vstd::string::StringExecFns;
use crate::classes::prefixed;

verus! {

/// The aspect ratios an image in a card can be held to.
#[derive(Debug, Clone, Copy, PartialEq, Eq, Structural)]
pub enum ContainerAspectRatioType {
    OneToOne,
    ThreeToTwo,
    FourToThree,
    EightToFive,
    SixteenToNine,
}

impl ContainerAspectRatioType {
    /// The ratio as class names spell it.
    pub open spec fn name(self) -> Seq<char> {
        match self {
            ContainerAspectRatioType::OneToOne => "1-to-1"@,
            ContainerAspectRatioType::ThreeToTwo => "3-to-2"@,
            ContainerAspectRatioType::FourToThree => "4-to-3"@,
            ContainerAspectRatioType::EightToFive => "8-to-5"@,
            ContainerAspectRatioType::SixteenToNine => "16-to-9"@,
        }
    }

    /// The ratio as class names spell it.
    pub fn as_ref(&self) -> (name: &'static str)
        ensures
            name@ == self.name(),
    {
        match self {
            ContainerAspectRatioType::OneToOne => "1-to-1",
            ContainerAspectRatioType::ThreeToTwo => "3-to-2",
            ContainerAspectRatioType::FourToThree => "4-to-3",
            ContainerAspectRatioType::EightToFive => "8-to-5",
            ContainerAspectRatioType::SixteenToNine => "16-to-9",
        }
    }
}
/// The element a card part is drawn as: a `span` inside an interactive
/// card, a `div` otherwise.
pub fn get_tag_name(interactive: bool) -> (tag: &'static str)
    ensures
        tag@ == if interactive {
            "span"@
        } else {
            "div"@
        },
{
    if interactive {
        "span"
    } else {
        "div"
    }
}

/// Whether a card part is interactive: as its card says, and not where there
/// is no card around it.
pub fn get_interactive(card_interactive: Option<bool>) -> (interactive: bool)
    ensures
        interactive == (card_interactive == Some(true)),
{
    match card_interactive {
        Some(interactive) => interactive,
        None => false,
    }
}

/// The part of a card that holds an image to an aspect ratio.
#[derive(Debug, Clone, Copy)]
pub struct ClayCardAspectRatio;

impl ClayCardAspectRatio {
    /// The element the part is drawn as.
    pub fn get_tag_name(interactive: bool) -> (tag: &'static str)
        ensures
            tag@ == if interactive {
                "span"@
            } else {
                "div"@
            },
    {
        get_tag_name(interactive)
    }

    /// The class of the aspect ratio, if one is given: `aspect-ratio-` and
    /// the ratio.
    pub fn get_apect_ratio_class(container_aspect_ratio: &Option<ContainerAspectRatioType>) -> (class:
        Option<String>)
        ensures
            match class {
                Some(c) => container_aspect_ratio.is_some() && c@ == "aspect-ratio-"@
                    + container_aspect_ratio.unwrap().name(),
                None => container_aspect_ratio.is_none(),
            },
    {
        if let Some(container_aspect_ratio) = container_aspect_ratio {
            Some(prefixed("aspect-ratio-", container_aspect_ratio.as_ref()))
        } else {
            None
        }
    }
}

/// The classes of a horizontal card: those of a selectable one, or the plain
/// ones.
pub fn get_selectable_class(selectable: bool) -> (class: &'static str)
    ensures
        class@ == if selectable {
            "form-check-card form-check form-check-middle-left"@
        } else {
            "card card-horizontal"@
        },
{
    if selectable {
        "form-check-card form-check form-check-middle-left"
    } else {
        "card card-horizontal"
    }
}

/// The class of an active card.
pub fn get_active_class(active: bool) -> (class: Option<&'static str>)
    ensures
        match class {
            Some(c) => active && c@ == "active"@,
            None => !active,
        },
{
    if active {
        Some("active")
    } else {
        None
    }
}

/// The class of a navigation card, horizontal or not.
pub fn get_horizontal_class(horizontal: bool) -> (class: &'static str)
    ensures
        class@ == if horizontal {
            "template-card-horizontal"@
        } else {
            "template-card"@
        },
{
    if horizontal {
        "template-card-horizontal"
    } else {
        "template-card"
    }
}

/// The role of a navigation card: a button where it handles clicks.
pub fn get_role(handles_click: Option<bool>) -> (role: Option<String>)
    ensures
        match role {
            Some(r) => handles_click == Some(true) && r@ == "button"@,
            None => handles_click != Some(true),
        },
{
    match handles_click {
        Some(true) => Some(String::from_str("button")),
        _ => None,
    }
}

} // verus!
