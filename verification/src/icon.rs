//! Icons drawn from a sprite map.

use vstd::prelude::*;
use crate::classes::{joined, prefixed};

verus! {

/// The class of the icon `symbol`: `lexicon-icon-` and the symbol.
pub fn get_icon_class(symbol: &str) -> (class: String)
    ensures
        class@ == "lexicon-icon-"@ + symbol@,
{
    prefixed("lexicon-icon-", symbol)
}

/// The address of the icon `symbol` in the sprite map: the map, `#` and the
/// symbol.
pub fn get_xlink_href(spritemap: &str, symbol: &str) -> (href: String)
    ensures
        href@ == spritemap@ + "#"@ + symbol@,
{
    joined(spritemap, "#", symbol)
}

} // verus!
