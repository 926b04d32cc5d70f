//! Containers.

use vstd::prelude::*;
use vstd::string::StringExecFns;
use crate::classes::{joined, prefixed};
use crate::layout::Sizing;

verus! {

/// The class of a container: `container-fluid` for a fluid one, `container`
/// otherwise.
pub fn get_container_type_class(fluid: bool) -> (class: String)
    ensures
        class@ == if fluid {
            "container"@ + "-"@ + "fluid"@
        } else {
            "container"@
        },
{
    if fluid {
        joined("container", "-", "fluid")
    } else {
        String::from_str("container")
    }
}

/// The class of a form container of the given size: `container-form-` and
/// the size.
pub fn get_container_form_size_class(form_size: Option<Sizing>) -> (class: Option<String>)
    ensures
        match class {
            Some(c) => form_size.is_some() && c@ == "container-form-"@ + form_size.unwrap().name(),
            None => form_size.is_none(),
        },
{
    match form_size {
        Some(size) => Some(prefixed("container-form-", size.as_ref())),
        None => None,
    }
}

/// The class of a view container.
pub fn get_container_view_class(view: bool) -> (class: Option<String>)
    ensures
        match class {
            Some(c) => view && c@ == "container"@ + "-"@ + "view"@,
            None => !view,
        },
{
    if view {
        Some(joined("container", "-", "view"))
    } else {
        None
    }
}

/// The class that caps the width of a fluid container: `container-fluid-max-`
/// and the size. A container that is not fluid has none.
pub fn get_fluid_max_class(fluid: bool, fluid_size: Option<Sizing>) -> (class: Option<String>)
    ensures
        match class {
            Some(c) => fluid && fluid_size.is_some() && c@ == "container-fluid-max-"@
                + fluid_size.unwrap().name(),
            None => !fluid || fluid_size.is_none(),
        },
{
    match fluid_size {
        Some(size) => {
            if fluid {
                Some(prefixed("container-fluid-max-", size.as_ref()))
            } else {
                None
            }
        },
        None => None,
    }
}

} // verus!
