//! Scope patterns: a `*` in a pattern stands for any run of characters and
//! the pattern is matched as an anchored regular expression; a pattern
//! without `*` matches only the identical string. A pattern whose regular
//! expression does not compile is reported, not taken as a mismatch.

use vstd::prelude::*;

use crate::text::same_text;

verus! {

/// The regular-expression text of a glob's characters, each `*` written as `.*`.
pub open spec fn glob_body(p: Seq<char>) -> Seq<char>
    decreases p.len(),
{
    if p.len() == 0 {
        Seq::empty()
    } else {
        glob_body(p.drop_last()) + if p.last() == '*' {
            seq!['.', '*']
        } else {
            seq![p.last()]
        }
    }
}

/// The anchored regular expression that a glob pattern stands for.
pub open spec fn glob_regex(p: Seq<char>) -> Seq<char> {
    seq!['^'] + glob_body(p) + seq!['$']
}

/// Whether the regular expression `re` matches somewhere in `hay`; none when
/// `re` does not compile.
pub uninterp spec fn regex_match_of(re: Seq<char>, hay: Seq<char>) -> Option<bool>;

/// Whether `pattern` admits `value`; none when the pattern does not compile.
pub open spec fn pattern_match(pattern: Seq<char>, value: Seq<char>) -> Option<bool> {
    if pattern.contains('*') {
        regex_match_of(glob_regex(pattern), value)
    } else {
        Some(pattern == value)
    }
}

/// Relies on `regex::Regex::new` and `Regex::is_match`: compiles `re` and
/// reports whether it matches `hay`, or none when `re` does not compile.
#[verifier::external_body]
fn regex_match(re: &str, hay: &str) -> (r: Option<bool>)
    ensures
        r == regex_match_of(re@, hay@),
{
    regex::Regex::new(re).ok().map(|compiled| compiled.is_match(hay))
}

/// Whether `text` holds the character `c`.
fn has_char(text: &str, c: char) -> (r: bool)
    ensures
        r == text@.contains(c),
{
    let n = text.unicode_len();
    let mut i: usize = 0;
    while i < n
        invariant
            n == text@.len(),
            i <= n,
            forall|k: int| 0 <= k < i ==> text@[k] != c,
        decreases n - i,
    {
        if text.get_char(i) == c {
            return true;
        }
        i += 1;
    }
    false
}

/// The anchored regular expression for a glob pattern.
pub fn glob_to_regex(pattern: &str) -> (r: String)
    ensures
        r@ == glob_regex(pattern@),
{
    proof {
        reveal_strlit("^");
        reveal_strlit("$");
    }
    let n = pattern.unicode_len();
    let mut out = String::new();
    out.append("^");
    let mut i: usize = 0;
    while i < n
        invariant
            n == pattern@.len(),
            i <= n,
            out@ == seq!['^'] + glob_body(pattern@.subrange(0, i as int)),
        decreases n - i,
    {
        let c = pattern.get_char(i);
        if c == '*' {
            proof {
                reveal_strlit(".*");
            }
            out.append(".*");
            assert(".*"@ =~= seq!['.', '*']);
        } else {
            let one = pattern.substring_char(i, i + 1);
            assert(one@ =~= seq![c]);
            out.append(one);
        }
        proof {
            let next = pattern@.subrange(0, i + 1);
            assert(next.drop_last() =~= pattern@.subrange(0, i as int));
            assert(next.last() == c);
            assert(glob_body(next) == glob_body(pattern@.subrange(0, i as int)) + if c == '*' {
                seq!['.', '*']
            } else {
                seq![c]
            });
            assert(out@ =~= seq!['^'] + glob_body(next));
        }
        i += 1;
    }
    assert(pattern@.subrange(0, n as int) =~= pattern@);
    out.append("$");
    out
}

/// Whether `pattern` admits `value`: by regular expression when the pattern
/// holds a `*`, by equality otherwise; none when the pattern does not
/// compile.
pub fn matches_pattern(pattern: &str, value: &str) -> (r: Option<bool>)
    ensures
        r == pattern_match(pattern@, value@),
{
    if has_char(pattern, '*') {
        let re = glob_to_regex(pattern);
        regex_match(re.as_str(), value)
    } else {
        Some(same_text(pattern, value))
    }
}

} // verus!
