//! The safe-deletion policy: a recursive directory deletion is permitted
//! only for a path whose string form contains the version-control directory
//! marker. A deliberately conservative, application-specific guard that makes
//! catastrophic accidental deletion structurally harder.

use crate::errors::ScaffoldError;
use crate::textops::{contains_seq, str_contains};
use vstd::prelude::*;

verus! {

/// The marker a path must contain before this tool will delete it
/// recursively: the name of a version-control directory.
pub open spec fn spec_delete_marker() -> Seq<char> {
    ".git"@
}

/// The deletion marker, executable form.
pub fn delete_marker() -> (r: &'static str)
    ensures
        r@ == spec_delete_marker(),
{
    ".git"
}

/// A path may be deleted recursively exactly when its string form contains
/// the deletion marker.
pub open spec fn spec_path_safe_to_delete(path: Seq<char>) -> bool {
    contains_seq(path, spec_delete_marker())
}

/// Decide whether the deletion policy accepts `path`.
pub fn path_safe_to_delete(path: &str) -> (r: bool)
    ensures
        r == spec_path_safe_to_delete(path@),
{
    str_contains(path, ".git")
}

/// The policy check gating every recursive deletion: `Ok` exactly when the
/// path contains the deletion marker, and `PathNotSafeToDelete` carrying the
/// offending path otherwise. The caller performs the actual removal only
/// after this check accepts.
pub fn check_recursive_delete(path: &str) -> (r: Result<(), ScaffoldError>)
    ensures
        r is Ok <==> spec_path_safe_to_delete(path@),
        !spec_path_safe_to_delete(path@) ==> (r matches Err(e) && e matches ScaffoldError::PathNotSafeToDelete(p)
            && p@ == path@),
{
    if path_safe_to_delete(path) {
        Ok(())
    } else {
        Err(ScaffoldError::PathNotSafeToDelete(String::from_str(path)))
    }
}

/// Any path ending in `/.git` — in particular the embedded version-control
/// directory of a freshly cloned template — passes the deletion policy.
pub proof fn lemma_git_dir_path_is_safe(dir: Seq<char>)
    ensures
        spec_path_safe_to_delete(dir + seq!['/'] + ".git"@),
{
    reveal_strlit(".git");
    let p = dir + seq!['/'] + ".git"@;
    let i: int = dir.len() as int + 1;
    assert(p.subrange(i, i + 4) =~= ".git"@);
    assert(crate::textops::matches_at(p, ".git"@, i));
}

} // verus!
