//! Path strings: joining components and recognizing example files.
//!
//! Paths are modeled as plain strings with `/` as the separator, so that
//! the logic on them can be specified over character sequences.

use vstd::prelude::*;

verus! {

/// Join a root and a `/`-delimited sub-path into one path string.
pub fn join_paths(root: &str, sub_path: &str) -> (r: String)
    ensures
        r@ == root@ + seq!['/'] + sub_path@,
{
    let mut r = String::from_str(root);
    r.append("/");
    r.append(sub_path);
    proof {
        reveal_strlit("/");
        assert("/"@ =~= seq!['/']);
        assert(r@ =~= root@ + seq!['/'] + sub_path@);
    }
    r
}

/// The suffix marking a template file that is to be materialized.
pub open spec fn spec_example_suffix() -> Seq<char> {
    ".example"@
}

/// `path` names an example file whose materialized twin is `path` with the
/// `.example` suffix stripped: the path ends in `.example`, and the file name
/// has a non-empty stem in front of that suffix (a file named exactly
/// `.example` has no extension and is left alone).
pub open spec fn spec_is_example_file(p: Seq<char>) -> bool {
    p.len() >= 9 && p.subrange(p.len() - 8, p.len() as int) == spec_example_suffix() && p[p.len()
        - 9] != '/'
}

/// Where an example file is copied to: the same path without the suffix.
pub open spec fn spec_env_target(p: Seq<char>) -> Seq<char> {
    p.subrange(0, p.len() - 8)
}

/// Decide whether `path` is an example file, and if so compute the path it
/// is materialized to (the `.example` suffix stripped). The copy itself is
/// the caller's job; it never deletes the example original.
pub fn env_target(path: &str) -> (r: Option<String>)
    ensures
        spec_is_example_file(path@) ==> (r matches Some(t) && t@ == spec_env_target(path@)),
        !spec_is_example_file(path@) ==> r is None,
{
    proof {
        reveal_strlit(".example");
    }
    let n: usize = path.unicode_len();
    if n < 9 {
        return None;
    }
    let suffix_ok = path.get_char(n - 8) == '.' && path.get_char(n - 7) == 'e' && path.get_char(
        n - 6,
    ) == 'x' && path.get_char(n - 5) == 'a' && path.get_char(n - 4) == 'm' && path.get_char(n - 3)
        == 'p' && path.get_char(n - 2) == 'l' && path.get_char(n - 1) == 'e';
    if !suffix_ok {
        proof {
            if spec_is_example_file(path@) {
                assert forall|j: int| 0 <= j < 8 implies path@[n - 8 + j]
                    == #[trigger] spec_example_suffix()[j] by {
                    assert(path@.subrange(n - 8, n as int)[j] == path@[n - 8 + j]);
                }
                assert(spec_example_suffix()[0] == '.');
                assert(spec_example_suffix()[1] == 'e');
                assert(spec_example_suffix()[2] == 'x');
                assert(spec_example_suffix()[3] == 'a');
                assert(spec_example_suffix()[4] == 'm');
                assert(spec_example_suffix()[5] == 'p');
                assert(spec_example_suffix()[6] == 'l');
                assert(spec_example_suffix()[7] == 'e');
                assert(false);
            }
        }
        return None;
    }
    proof {
        assert(path@.subrange(n - 8, n as int) =~= spec_example_suffix());
    }
    if path.get_char(n - 9) == '/' {
        return None;
    }
    let stem = path.substring_char(0, n - 8);
    Some(String::from_str(stem))
}

} // verus!
