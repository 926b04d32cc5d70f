use vstd::prelude::*;

verus! {

/// Whether and when an alert closes by itself.
#[derive(Debug, Clone, Copy, PartialEq, Eq, Structural)]
pub enum AutoCloseValue {
    /// Close after the default delay, or never.
    Boolean(bool),
    /// Close after this many milliseconds.
    Number(u32),
}

impl AutoCloseValue {
    /// The name of the variant.
    pub open spec fn name(self) -> Seq<char> {
        match self {
            AutoCloseValue::Boolean(_) => "Boolean"@,
            AutoCloseValue::Number(_) => "Number"@,
        }
    }

    /// The name of the variant.
    pub fn as_ref(&self) -> (name: &'static str)
        ensures
            name@ == self.name(),
    {
        match self {
            AutoCloseValue::Boolean(_) => "Boolean",
            AutoCloseValue::Number(_) => "Number",
        }
    }
}

/// The colour scheme of an alert.
#[derive(Debug, Clone, Copy, PartialEq, Eq, Structural)]
pub enum AlertDisplayType {
    Danger,
    Info,
    Success,
    Warning,
}

impl AlertDisplayType {
    /// The display type in lower case, as class names spell it.
    pub open spec fn name(self) -> Seq<char> {
        match self {
            AlertDisplayType::Danger => "danger"@,
            AlertDisplayType::Info => "info"@,
            AlertDisplayType::Success => "success"@,
            AlertDisplayType::Warning => "warning"@,
        }
    }

    /// The display type in lower case, as class names spell it.
    pub fn as_ref(&self) -> (name: &'static str)
        ensures
            name@ == self.name(),
    {
        match self {
            AlertDisplayType::Danger => "danger",
            AlertDisplayType::Info => "info",
            AlertDisplayType::Success => "success",
            AlertDisplayType::Warning => "warning",
        }
    }
}

impl Default for AlertDisplayType {
    /// An alert informs unless told otherwise.
    fn default() -> (display_type: Self)
        ensures
            display_type == AlertDisplayType::Info,
    {
        AlertDisplayType::Info
    }
}

/// The layout of an alert.
#[derive(Debug, Clone, Copy, PartialEq, Eq, Structural)]
pub enum AlertVariant {
    Feedback,
    Stripe,
    Inline,
}

impl AlertVariant {
    /// The variant in lower case.
    pub open spec fn name(self) -> Seq<char> {
        match self {
            AlertVariant::Feedback => "feedback"@,
            AlertVariant::Stripe => "stripe"@,
            AlertVariant::Inline => "inline"@,
        }
    }

    /// The variant in lower case.
    pub fn as_ref(&self) -> (name: &'static str)
        ensures
            name@ == self.name(),
    {
        match self {
            AlertVariant::Feedback => "feedback",
            AlertVariant::Stripe => "stripe",
            AlertVariant::Inline => "inline",
        }
    }
}

} // verus!
