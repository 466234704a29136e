//! The user-facing version string.

use vstd::prelude::*;

use crate::text::{chars_eq, str_chars};

verus! {

/// `version`, followed by ` (dirty)` when the tree was dirty at build time.
pub open spec fn version_text(version: Seq<char>, git_dirty: Seq<char>) -> Seq<char> {
    if git_dirty == "true"@ {
        version + " (dirty)"@
    } else {
        version
    }
}

/// The version string for display and logs, given the build's version and
/// its git-dirty flag (`"true"` or `"false"`); a dirty build is marked so
/// that it is plain that it may not be reproducible.
pub fn display_version(version: &str, git_dirty: &str) -> (r: String)
    ensures
        r@ == version_text(version@, git_dirty@),
{
    let dirty = str_chars(git_dirty);
    let t = str_chars("true");
    let mut out = String::from_str(version);
    if chars_eq(&dirty, &t) {
        out.append(" (dirty)");
    }
    out
}

} // verus!
