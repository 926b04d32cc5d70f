//! Links, and links drawn as buttons.

use vstd::prelude::*;

verus! {

/// How a link is drawn as a button.
#[derive(Debug, Clone, Copy, PartialEq, Eq, Structural)]
pub struct LinkButtonOptions {
    pub block: bool,
    pub monospaced: bool,
    pub small: bool,
}

impl Default for LinkButtonOptions {
    fn default() -> (options: Self)
        ensures
            options == (LinkButtonOptions { block: false, monospaced: false, small: false }),
    {
        LinkButtonOptions { block: false, monospaced: false, small: false }
    }
}

/// Whether a link is drawn as a button, and how.
#[derive(Debug, Clone, Copy, PartialEq, Eq, Structural)]
pub enum LinkButton {
    Boolean(bool),
    Options(LinkButtonOptions),
}

impl LinkButton {
    /// The link is drawn as a button.
    pub open spec fn is_button(self) -> bool {
        self != LinkButton::Boolean(false)
    }

    /// The options the link is given, where it is given any.
    pub open spec fn options(self) -> LinkButtonOptions {
        match self {
            LinkButton::Boolean(_) => LinkButtonOptions {
                block: false,
                monospaced: false,
                small: false,
            },
            LinkButton::Options(opts) => opts,
        }
    }
}

/// The colour scheme of a link.
#[derive(Debug, Clone, Copy, PartialEq, Eq, Structural)]
pub enum LinkDisplayType {
    Primary,
    Secondary,
    Unstyled,
}

impl LinkDisplayType {
    /// The display type in lower case.
    pub open spec fn name(self) -> Seq<char> {
        match self {
            LinkDisplayType::Primary => "primary"@,
            LinkDisplayType::Secondary => "secondary"@,
            LinkDisplayType::Unstyled => "unstyled"@,
        }
    }
}

/// `class` where `wanted`, and none otherwise.
pub open spec fn class_if(wanted: bool, class: Seq<char>) -> Option<Seq<char>> {
    if wanted {
        Some(class)
    } else {
        None
    }
}

/// What a function that picks a class hands back, as characters.
pub open spec fn chars_of(class: Option<&str>) -> Option<Seq<char>> {
    match class {
        Some(c) => Some(c@),
        None => None,
    }
}

/// The class `btn` of a link that is drawn as a button.
pub fn get_btn_class(button: &LinkButton) -> (class: Option<&'static str>)
    ensures
        chars_of(class) == class_if(button.is_button(), "btn"@),
{
    match button {
        LinkButton::Boolean(is_button) => match is_button {
            true => (),
            false => return None,
        },
        LinkButton::Options(_) => (),
    }
    Some("btn")
}

/// The class of a button link that fills its line: asked for by the options
/// or by the link itself.
pub fn get_btn_block_class(button: &LinkButton, block: Option<bool>) -> (class: Option<
    &'static str,
>)
    ensures
        chars_of(class) == class_if(button.options().block || block == Some(true), "btn-block"@),
{
    let block = match block {
        Some(b) => b,
        None => false,
    };
    let button = match button {
        LinkButton::Boolean(_) => false,
        LinkButton::Options(opts) => opts.block,
    };
    if button || block {
        Some("btn-block")
    } else {
        None
    }
}

/// The class of a monospaced button link: asked for by the options or by the
/// link itself.
pub fn get_btn_monospaced_class(button: &LinkButton, monospaced: bool) -> (class: Option<
    &'static str,
>)
    ensures
        chars_of(class) == class_if(button.options().monospaced || monospaced, "btn-monospaced"@),
{
    let button = match button {
        LinkButton::Boolean(_) => false,
        LinkButton::Options(opts) => opts.monospaced,
    };
    if button || monospaced {
        Some("btn-monospaced")
    } else {
        None
    }
}

/// The class of a borderless button link.
pub fn get_borderless_class(borderless: bool) -> (class: Option<&'static str>)
    ensures
        chars_of(class) == class_if(borderless, "btn-outline-borderless"@),
{
    if borderless {
        Some("btn-outline-borderless")
    } else {
        None
    }
}

/// The class of a small button link: asked for by the options or by the link
/// itself.
pub fn get_btn_small_class(button: &LinkButton, small: Option<bool>) -> (class: Option<
    &'static str,
>)
    ensures
        chars_of(class) == class_if(button.options().small || small == Some(true), "btn-small"@),
{
    let small = match small {
        Some(s) => s,
        None => false,
    };
    let button = match button {
        LinkButton::Boolean(_) => false,
        LinkButton::Options(opts) => opts.small,
    };
    if button || small {
        Some("btn-small")
    } else {
        None
    }
}

/// The colour class of a filled button link: `btn-` and the display type,
/// for a link that is neither outlined nor borderless.
pub fn get_btn_display_class(
    display_type: &Option<LinkDisplayType>,
    outline: bool,
    borderless: bool,
) -> (class: Option<&'static str>)
    ensures
        chars_of(class) == match *display_type {
            Some(d) => class_if(!outline && !borderless, "btn-"@ + d.name()),
            None => None,
        },
{
    proof {
        lemma_class_names();
    }
    if let Some(display_type) = display_type {
        if !outline && !borderless {
            return match display_type {
                LinkDisplayType::Primary => Some("btn-primary"),
                LinkDisplayType::Secondary => Some("btn-secondary"),
                LinkDisplayType::Unstyled => Some("btn-unstyled"),
            };
        }
    }
    None
}

/// The colour class of an outlined button link: `btn-outline-` and the
/// display type, for a link that is outlined or borderless.
pub fn get_btn_outline_display_class(
    display_type: &Option<LinkDisplayType>,
    outline: bool,
    borderless: bool,
) -> (class: Option<&'static str>)
    ensures
        chars_of(class) == match *display_type {
            Some(d) => class_if(outline || borderless, "btn-outline-"@ + d.name()),
            None => None,
        },
{
    proof {
        lemma_class_names();
    }
    if let Some(display_type) = display_type {
        if outline || borderless {
            return match display_type {
                LinkDisplayType::Primary => Some("btn-outline-primary"),
                LinkDisplayType::Secondary => Some("btn-outline-secondary"),
                LinkDisplayType::Unstyled => Some("btn-outline-unstyled"),
            };
        }
    };
    None
}

/// `class` where `boolean` is set.
pub fn get_bool_class(boolean: bool, class: &str) -> (picked: Option<&str>)
    ensures
        chars_of(picked) == class_if(boolean, class@),
{
    if boolean {
        Some(class)
    } else {
        None
    }
}

/// The colour class of a plain link: `link-` and the display type, for a
/// link that is not outlined.
pub fn get_link_display_class(display_type: &Option<LinkDisplayType>, outline: bool) -> (class:
    Option<&'static str>)
    ensures
        chars_of(class) == match *display_type {
            Some(d) => class_if(!outline, "link-"@ + d.name()),
            None => None,
        },
{
    proof {
        lemma_class_names();
    }
    if !outline {
        if let Some(display_type) = display_type {
            return match display_type {
                LinkDisplayType::Primary => Some("link-primary"),
                LinkDisplayType::Secondary => Some("link-secondary"),
                LinkDisplayType::Unstyled => Some("link-unstyled"),
            };
        }
    }
    None
}

/// The colour class of an outlined link: `link-outline-` and the display
/// type.
pub fn get_link_outline_display_class(display_type: &Option<LinkDisplayType>, outline: bool) -> (class:
    Option<&'static str>)
    ensures
        chars_of(class) == match *display_type {
            Some(d) => class_if(outline, "link-outline-"@ + d.name()),
            None => None,
        },
{
    proof {
        lemma_class_names();
    }
    if outline {
        if let Some(display_type) = display_type {
            return match display_type {
                LinkDisplayType::Primary => Some("link-outline-primary"),
                LinkDisplayType::Secondary => Some("link-outline-secondary"),
                LinkDisplayType::Unstyled => Some("link-outline-unstyled"),
            };
        }
    }
    None
}

/// A link that names a target and no relation is given the relation
/// `noreferrer noopener`.
pub fn needs_rel(has_target: bool, has_rel: bool) -> (needed: bool)
    ensures
        needed == (has_target && !has_rel),
{
    has_target && !has_rel
}

/// Each colour class of a link is its prefix followed by the display type.
pub proof fn lemma_class_names()
    ensures
        "btn-primary"@ == "btn-"@ + LinkDisplayType::Primary.name(),
        "btn-secondary"@ == "btn-"@ + LinkDisplayType::Secondary.name(),
        "btn-unstyled"@ == "btn-"@ + LinkDisplayType::Unstyled.name(),
        "btn-outline-primary"@ == "btn-outline-"@ + LinkDisplayType::Primary.name(),
        "btn-outline-secondary"@ == "btn-outline-"@ + LinkDisplayType::Secondary.name(),
        "btn-outline-unstyled"@ == "btn-outline-"@ + LinkDisplayType::Unstyled.name(),
        "link-primary"@ == "link-"@ + LinkDisplayType::Primary.name(),
        "link-secondary"@ == "link-"@ + LinkDisplayType::Secondary.name(),
        "link-unstyled"@ == "link-"@ + LinkDisplayType::Unstyled.name(),
        "link-outline-primary"@ == "link-outline-"@ + LinkDisplayType::Primary.name(),
        "link-outline-secondary"@ == "link-outline-"@ + LinkDisplayType::Secondary.name(),
        "link-outline-unstyled"@ == "link-outline-"@ + LinkDisplayType::Unstyled.name(),
{
    reveal_strlit("btn-");
    reveal_strlit("btn-outline-");
    reveal_strlit("link-");
    reveal_strlit("link-outline-");
    reveal_strlit("primary");
    reveal_strlit("secondary");
    reveal_strlit("unstyled");
    reveal_strlit("btn-primary");
    reveal_strlit("btn-secondary");
    reveal_strlit("btn-unstyled");
    reveal_strlit("btn-outline-primary");
    reveal_strlit("btn-outline-secondary");
    reveal_strlit("btn-outline-unstyled");
    reveal_strlit("link-primary");
    reveal_strlit("link-secondary");
    reveal_strlit("link-unstyled");
    reveal_strlit("link-outline-primary");
    reveal_strlit("link-outline-secondary");
    reveal_strlit("link-outline-unstyled");
    assert("btn-primary"@ =~= "btn-"@ + "primary"@);
    assert("btn-secondary"@ =~= "btn-"@ + "secondary"@);
    assert("btn-unstyled"@ =~= "btn-"@ + "unstyled"@);
    assert("btn-outline-primary"@ =~= "btn-outline-"@ + "primary"@);
    assert("btn-outline-secondary"@ =~= "btn-outline-"@ + "secondary"@);
    assert("btn-outline-unstyled"@ =~= "btn-outline-"@ + "unstyled"@);
    assert("link-primary"@ =~= "link-"@ + "primary"@);
    assert("link-secondary"@ =~= "link-"@ + "secondary"@);
    assert("link-unstyled"@ =~= "link-"@ + "unstyled"@);
    assert("link-outline-primary"@ =~= "link-outline-"@ + "primary"@);
    assert("link-outline-secondary"@ =~= "link-outline-"@ + "secondary"@);
    assert("link-outline-unstyled"@ =~= "link-outline-"@ + "unstyled"@);
}

} // verus!
