//! Turning free-form user text into a filesystem-safe directory name.
//!
//! Every character outside `[A-Za-z0-9]` is replaced by `-`, the trailing
//! run of `-` is removed, and uppercase ASCII letters are lowercased.

use vstd::prelude::*;

verus! {

/// An ASCII letter or digit: a character the sanitizer keeps (up to lowercasing).
pub open spec fn is_alnum(c: char) -> bool {
    (48 <= c as u32 && c as u32 <= 57)  // '0' ..= '9'
    || (65 <= c as u32 && c as u32 <= 90)  // 'A' ..= 'Z'
    || (97 <= c as u32 && c as u32 <= 122)  // 'a' ..= 'z'
}

/// A character that may appear in a sanitized name: a lowercase ASCII letter,
/// a digit, or '-'.
pub open spec fn is_sanitized_char(c: char) -> bool {
    (48 <= c as u32 && c as u32 <= 57) || (97 <= c as u32 && c as u32 <= 122) || c == '-'
}

/// Lowercase an uppercase ASCII letter; leave any other character unchanged.
pub open spec fn lower_char(c: char) -> char {
    if 65 <= c as u32 && c as u32 <= 90 {
        (((c as u32) + 32) as u8) as char
    } else {
        c
    }
}

/// One sanitization step on a single character: keep an ASCII letter
/// (lowercased) or digit, replace anything else with '-'.
pub open spec fn sanitize_char(c: char) -> char {
    if is_alnum(c) {
        lower_char(c)
    } else {
        '-'
    }
}

/// Apply [`sanitize_char`] to every character of a sequence.
pub open spec fn sanitize_map(s: Seq<char>) -> Seq<char> {
    s.map_values(|c: char| sanitize_char(c))
}

/// Drop every trailing '-' from a sequence of characters.
pub open spec fn strip_trailing_dashes(s: Seq<char>) -> Seq<char>
    decreases s.len(),
{
    if s.len() > 0 && s.last() == '-' {
        strip_trailing_dashes(s.drop_last())
    } else {
        s
    }
}

/// The sanitized form of a name: every character outside `[A-Za-z0-9]`
/// replaced by '-', the trailing run of '-' removed, and the rest lowercased.
pub open spec fn spec_sanitize(s: Seq<char>) -> Seq<char> {
    strip_trailing_dashes(sanitize_map(s))
}

/// The result of one sanitization step is always a lowercase letter, a digit,
/// or '-'.
pub proof fn lemma_sanitize_char_valid(c: char)
    ensures
        is_sanitized_char(sanitize_char(c)),
{
}

/// A character already in sanitized form is a fixed point of the
/// per-character sanitization step.
pub proof fn lemma_sanitize_char_fixed(c: char)
    requires
        is_sanitized_char(c),
    ensures
        sanitize_char(c) == c,
{
}

/// Stripping trailing dashes yields a prefix of the input whose last
/// character, if any, is not '-'.
pub proof fn lemma_strip_trailing_dashes(s: Seq<char>)
    ensures
        strip_trailing_dashes(s).len() <= s.len(),
        forall|i: int|
            0 <= i < strip_trailing_dashes(s).len() ==> strip_trailing_dashes(s)[i] == s[i],
        strip_trailing_dashes(s).len() > 0 ==> strip_trailing_dashes(s).last() != '-',
    decreases s.len(),
{
    if s.len() > 0 && s.last() == '-' {
        lemma_strip_trailing_dashes(s.drop_last());
        assert forall|i: int| 0 <= i < strip_trailing_dashes(s).len() implies strip_trailing_dashes(
            s,
        )[i] == s[i] by {
            assert(strip_trailing_dashes(s) == strip_trailing_dashes(s.drop_last()));
            assert(strip_trailing_dashes(s.drop_last())[i] == s.drop_last()[i]);
            assert(s.drop_last()[i] == s[i]);
        }
    }
}

/// Every character of a sanitized name is a lowercase ASCII letter, a digit,
/// or an internal '-', and the name never ends with '-'.
pub proof fn lemma_sanitize_valid(s: Seq<char>)
    ensures
        forall|i: int|
            0 <= i < spec_sanitize(s).len() ==> is_sanitized_char(#[trigger] spec_sanitize(s)[i]),
        spec_sanitize(s).len() > 0 ==> spec_sanitize(s).last() != '-',
{
    let m = sanitize_map(s);
    lemma_strip_trailing_dashes(m);
    assert forall|i: int| 0 <= i < spec_sanitize(s).len() implies is_sanitized_char(
        #[trigger] spec_sanitize(s)[i],
    ) by {
        assert(spec_sanitize(s)[i] == m[i]);
        assert(m[i] == sanitize_char(s[i]));
        lemma_sanitize_char_valid(s[i]);
    }
}

/// Sanitization is idempotent: a sanitized name is a fixed point.
pub proof fn lemma_sanitize_idempotent(s: Seq<char>)
    ensures
        spec_sanitize(spec_sanitize(s)) == spec_sanitize(s),
{
    let t = spec_sanitize(s);
    lemma_sanitize_valid(s);
    assert forall|i: int| 0 <= i < t.len() implies sanitize_map(t)[i] == t[i] by {
        lemma_sanitize_char_fixed(t[i]);
    }
    assert(sanitize_map(t) =~= t);
    if t.len() > 0 {
        assert(strip_trailing_dashes(t) == t);
    }
}

/// One sanitization step, executable form.
fn sanitize_char_exec(c: char) -> (r: char)
    ensures
        r == sanitize_char(c),
{
    let u = c as u32;
    if (48 <= u && u <= 57) || (97 <= u && u <= 122) {
        c
    } else if 65 <= u && u <= 90 {
        ((u + 32) as u8) as char
    } else {
        '-'
    }
}

/// Build the filesystem-safe form of a user-supplied name.
///
/// Total over any input: replaces every character outside `[A-Za-z0-9]`
/// with '-', strips the trailing run of '-', and lowercases the rest.
pub fn sanitize(raw: &str) -> (r: String)
    ensures
        r@ == spec_sanitize(raw@),
{
    let n: usize = raw.unicode_len();
    let mut out: Vec<char> = Vec::new();
    let mut i: usize = 0;
    while i < n
        invariant
            n == raw@.len(),
            i <= n,
            out@ == sanitize_map(raw@.subrange(0, i as int)),
        decreases n - i,
    {
        let c = raw.get_char(i);
        out.push(sanitize_char_exec(c));
        i = i + 1;
        proof {
            assert(out@ =~= sanitize_map(raw@.subrange(0, i as int)));
        }
    }
    proof {
        assert(raw@.subrange(0, n as int) =~= raw@);
    }
    while out.len() > 0 && out[out.len() - 1] == '-'
        invariant
            strip_trailing_dashes(out@) == spec_sanitize(raw@),
        decreases out.len(),
    {
        proof {
            assert(out@.drop_last() =~= out@.subrange(0, out@.len() - 1));
        }
        out.pop();
    }
    crate::textops::chars_to_string(&out)
}

} // verus!
