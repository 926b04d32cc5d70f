//! Building CSS class names.

use vstd::prelude::*;
use vstd::string::StringExecFns;

verus! {

/// The class name made of `prefix` followed by `name`.
pub fn prefixed(prefix: &str, name: &str) -> (class: String)
    ensures
        class@ == prefix@ + name@,
{
    let mut class = String::from_str(prefix);
    class.append(name);
    class
}

/// The class name made of `head`, `sep` and `tail`, in this order.
pub fn joined(head: &str, sep: &str, tail: &str) -> (class: String)
    ensures
        class@ == head@ + sep@ + tail@,
{
    let mut class = String::from_str(head);
    class.append(sep);
    class.append(tail);
    class
}

/// `class_name` as an owned class when `boolean` is set.
pub fn match_bool(boolean: bool, class_name: &'static str) -> (class: Option<String>)
    ensures
        match class {
            Some(c) => boolean && c@ == class_name@,
            None => !boolean,
        },
{
    if boolean {
        Some(String::from_str(class_name))
    } else {
        None
    }
}

/// `class_name` as an owned class when `boolean` is given and set.
pub fn get_bool_class(boolean: Option<bool>, class_name: &'static str) -> (class: Option<String>)
    ensures
        match class {
            Some(c) => boolean == Some(true) && c@ == class_name@,
            None => boolean != Some(true),
        },
{
    match boolean {
        Some(b) => match_bool(b, class_name),
        None => None,
    }
}

} // verus!
