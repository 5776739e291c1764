//! Texts as the contracts see them.

use vstd::prelude::*;

verus! {

/// A text that may be missing, as the contracts see it.
pub open spec fn opt_text(text: Option<String>) -> Option<Seq<char>> {
    match text {
        Some(t) => Some(t@),
        None => None,
    }
}

} // verus!
