use vstd::prelude::*;
use vstd::string::StringExecFns;
use crate::alert::enums::{AlertDisplayType, AlertVariant};
use crate::classes::prefixed;

verus! {

/// What an alert is told to do.
#[derive(Debug, Clone, Copy, PartialEq, Eq, Structural)]
pub enum Msg {
    Close,
    PauseTimer,
    StartTimer,
}

/// What an alert indicator is drawn from.
#[derive(Debug, Clone, Copy, PartialEq)]
pub struct AlertIndicatorProps {
    pub spritemap: &'static str,
    pub display_type: AlertDisplayType,
}

/// The classes of the variants, in words.
pub open spec fn variant_class(variant: AlertVariant) -> Seq<char> {
    match variant {
        AlertVariant::Feedback => "alert-feedback alert-indicator-start"@,
        AlertVariant::Stripe => "alert-fluid"@,
        AlertVariant::Inline => "alert-inline"@,
    }
}

/// The icon of each display type.
pub open spec fn indicator_symbol_of(display_type: AlertDisplayType) -> Seq<char> {
    match display_type {
        AlertDisplayType::Danger => "exclamation-full"@,
        AlertDisplayType::Info => "info-circle"@,
        AlertDisplayType::Success => "check-circle-full"@,
        AlertDisplayType::Warning => "warning-full"@,
    }
}

/// An alert shows its close button when it has a close handler and the
/// button is not hidden.
pub fn get_show_dismissible(has_on_close: bool, hide_close_icon: bool) -> (show: bool)
    ensures
        show == (has_on_close && !hide_close_icon),
{
    has_on_close && !hide_close_icon
}

/// The class of an alert that shows its close button.
pub fn get_dismissible_class(show_dismissible: bool) -> (class: Option<String>)
    ensures
        match class {
            Some(c) => show_dismissible && c@ == "alert-dismissible"@,
            None => !show_dismissible,
        },
{
    match show_dismissible {
        true => Some(String::from_str("alert-dismissible")),
        false => None,
    }
}

/// The class of the variant, if one is given.
pub fn get_variant_class(variant: &Option<AlertVariant>) -> (class: Option<String>)
    ensures
        match class {
            Some(c) => variant.is_some() && c@ == variant_class(variant.unwrap()),
            None => variant.is_none(),
        },
{
    if let Some(variant) = variant {
        match variant {
            AlertVariant::Feedback => Some(
                String::from_str("alert-feedback alert-indicator-start"),
            ),
            AlertVariant::Stripe => Some(String::from_str("alert-fluid")),
            AlertVariant::Inline => Some(String::from_str("alert-inline")),
        }
    } else {
        None
    }
}

/// The class of the display type: `alert-` and its name.
pub fn get_display_class(display_type: &AlertDisplayType) -> (class: Option<String>)
    ensures
        class.is_some(),
        class.unwrap()@ == "alert-"@ + display_type.name(),
{
    Some(prefixed("alert-", display_type.as_ref()))
}

/// The icon an alert indicator shows for a display type.
pub fn indicator_symbol(display_type: &AlertDisplayType) -> (symbol: &'static str)
    ensures
        symbol@ == indicator_symbol_of(*display_type),
{
    match display_type {
        AlertDisplayType::Danger => "exclamation-full",
        AlertDisplayType::Info => "info-circle",
        AlertDisplayType::Success => "check-circle-full",
        AlertDisplayType::Warning => "warning-full",
    }
}

/// An alert with the stripe variant is laid out in a container.
pub fn wraps_in_container(variant: &Option<AlertVariant>) -> (wraps: bool)
    ensures
        wraps == (*variant == Some(AlertVariant::Stripe)),
{
    match variant {
        Some(AlertVariant::Stripe) => true,
        _ => false,
    }
}

/// The indicator of a stripe alert stands in a column of its own. It is
/// drawn for the stripe variant, and for an alert that names no variant.
pub fn shows_stripe_indicator(variant: &Option<AlertVariant>) -> (shown: bool)
    ensures
        shown == (*variant == None::<AlertVariant> || *variant == Some(AlertVariant::Stripe)),
{
    match variant {
        Some(AlertVariant::Stripe) => true,
        Some(_) => false,
        None => true,
    }
}

/// The indicator beside the title is drawn for every named variant but the
/// stripe.
pub fn shows_default_indicator(variant: &Option<AlertVariant>) -> (shown: bool)
    ensures
        shown == (*variant == Some(AlertVariant::Feedback) || *variant == Some(
            AlertVariant::Inline,
        )),
{
    match variant {
        Some(AlertVariant::Stripe) => false,
        Some(_) => true,
        None => false,
    }
}

/// The footer below the text holds the actions of an alert whose variant is
/// named and is not inline.
pub fn shows_default_footer(variant: &Option<AlertVariant>, has_actions: bool) -> (shown: bool)
    ensures
        shown == (has_actions && (*variant == Some(AlertVariant::Feedback) || *variant == Some(
            AlertVariant::Stripe,
        ))),
{
    match variant {
        Some(AlertVariant::Inline) => false,
        Some(_) => has_actions,
        None => false,
    }
}

/// The footer beside the text holds the actions of an inline alert.
pub fn shows_inline_footer(variant: &Option<AlertVariant>, has_actions: bool) -> (shown: bool)
    ensures
        shown == (has_actions && *variant == Some(AlertVariant::Inline)),
{
    match variant {
        Some(AlertVariant::Inline) => has_actions,
        _ => false,
    }
}

/// The timer is started when the alert is first drawn, if the alert closes
/// by itself and has a close handler.
pub fn starts_timer(first_render: bool, has_auto_close: bool, has_on_close: bool) -> (starts: bool)
    ensures
        starts == (first_render && has_auto_close && has_on_close),
{
    first_render && has_auto_close && has_on_close
}

} // verus!
