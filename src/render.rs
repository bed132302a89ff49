//! Text pieces shared by the registers' diagnostic dumps.
use vstd::prelude::*;

verus! {

/// The text of a boolean, as `{:?}` renders it.
pub open spec fn bool_text(b: bool) -> Seq<char> {
    if b {
        "true"@
    } else {
        "false"@
    }
}

/// Names a boolean, as `{:?}` renders it.
pub fn bool_str(b: bool) -> (s: &'static str)
    ensures
        s@ == bool_text(b),
{
    if b {
        "true"
    } else {
        "false"
    }
}

} // verus!
