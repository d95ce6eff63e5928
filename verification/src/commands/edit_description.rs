//! Edit a branch description: a straight delegation to the gateway.

use vstd::prelude::*;

use crate::strutil::push_str;

verus! {

/// The interactive gateway command editing the current branch's
/// description.
pub fn run() -> (r: Vec<String>)
    ensures
        r.deep_view() == seq!["branch"@, "--edit-description"@],
{
    let mut r: Vec<String> = Vec::new();
    push_str(&mut r, "branch");
    push_str(&mut r, "--edit-description");
    proof {
        assert(r.deep_view() =~= seq!["branch"@, "--edit-description"@]);
    }
    r
}

} // verus!
