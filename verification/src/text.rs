//! Character classes and small string operations used by the validators
//! and by the link builder.

use vstd::prelude::*;

verus! {

/// Appends one character to a string.
///
/// Trusted: calls `String::push`, which std documents as appending the
/// given `char` to the end of the string; the contract says the view grows
/// by exactly that character.
#[verifier::external_body]
pub(crate) fn push_char(s: &mut String, c: char)
    ensures
        final(s)@ == old(s)@.push(c),
{
    s.push(c)
}

/// The Unicode `White_Space` property, the class that `char::is_whitespace`
/// and `str::trim` go by.
pub open spec fn is_white_space(c: char) -> bool {
    ||| ('\u{9}' <= c && c <= '\u{d}')
    ||| c == ' '
    ||| c == '\u{85}'
    ||| c == '\u{a0}'
    ||| c == '\u{1680}'
    ||| ('\u{2000}' <= c && c <= '\u{200a}')
    ||| c == '\u{2028}'
    ||| c == '\u{2029}'
    ||| c == '\u{202f}'
    ||| c == '\u{205f}'
    ||| c == '\u{3000}'
}

/// Whether `c` has the Unicode `White_Space` property.
pub fn is_whitespace(c: char) -> (r: bool)
    ensures
        r == is_white_space(c),
{
    ('\u{9}' <= c && c <= '\u{d}') || c == ' ' || c == '\u{85}' || c == '\u{a0}' || c
        == '\u{1680}' || ('\u{2000}' <= c && c <= '\u{200a}') || c == '\u{2028}' || c
        == '\u{2029}' || c == '\u{202f}' || c == '\u{205f}' || c == '\u{3000}'
}

/// What `char::is_alphanumeric` answers for `c` (the Unicode `Alphabetic`
/// or `Numeric` classes).
pub uninterp spec fn alphanumeric(c: char) -> bool;

/// Whether `c` is alphanumeric.
///
/// Trusted: calls `char::is_alphanumeric`; the contract only names its
/// answer, which depends on `c` alone. Which characters the Unicode tables
/// count as alphabetic or numeric is left unsaid.
#[verifier::external_body]
pub(crate) fn is_alphanumeric(c: char) -> (r: bool)
    ensures
        r == alphanumeric(c),
{
    c.is_alphanumeric()
}

/// `s` without its trailing `/` characters.
pub open spec fn trim_end_slashes(s: Seq<char>) -> Seq<char>
    decreases s.len(),
{
    if s.len() > 0 && s.last() == '/' {
        trim_end_slashes(s.drop_last())
    } else {
        s
    }
}

/// Trimming trailing slashes keeps a prefix.
pub proof fn lemma_trim_end_prefix(s: Seq<char>)
    ensures
        trim_end_slashes(s) == s.take(trim_end_slashes(s).len() as int),
        trim_end_slashes(s).len() <= s.len(),
    decreases s.len(),
{
    if s.len() > 0 && s.last() == '/' {
        lemma_trim_end_prefix(s.drop_last());
        assert(s.drop_last().take(trim_end_slashes(s).len() as int) =~= s.take(
            trim_end_slashes(s).len() as int,
        ));
    } else {
        assert(s.take(s.len() as int) =~= s);
    }
}

/// Trimming cuts off exactly the trailing run of slashes: what is kept is
/// a prefix of `s` that does not end in `/`, and everything cut is `/`.
pub proof fn lemma_trim_end_shape(s: Seq<char>)
    ensures
        trim_end_slashes(s).len() <= s.len(),
        trim_end_slashes(s) == s.take(trim_end_slashes(s).len() as int),
        forall|i: int| trim_end_slashes(s).len() <= i < s.len() ==> s[i] == '/',
        trim_end_slashes(s).len() == 0 || s[trim_end_slashes(s).len() - 1] != '/',
    decreases s.len(),
{
    lemma_trim_end_prefix(s);
    if s.len() > 0 && s.last() == '/' {
        lemma_trim_end_shape(s.drop_last());
        assert forall|i: int| trim_end_slashes(s).len() <= i < s.len() implies s[i] == '/' by {
            if i < s.len() - 1 {
                assert(s[i] == s.drop_last()[i]);
            }
        }
    }
}

/// The ASCII white-space characters are the space and tab, line feed,
/// vertical tab, form feed and carriage return; no other ASCII character
/// counts.
pub proof fn lemma_ascii_white_space(c: char)
    requires
        (c as u32) < 128,
    ensures
        is_white_space(c) <==> (c == ' ' || c == '\t' || c == '\n' || c == '\u{b}' || c
            == '\u{c}' || c == '\r'),
{
}

/// Returns `s` without its trailing `/` characters, as `trim_end_matches('/')`
/// does.
pub fn trim_end_slashes_of(s: &str) -> (r: &str)
    ensures
        r@ == trim_end_slashes(s@),
{
    let mut keep: usize = 0;
    let mut seen: usize = 0;
    let ghost chars = s@;
    let total: usize = s.unicode_len();
    for c in iter: s.chars()
        invariant
            chars == s@,
            total == chars.len(),
            iter.seq() == chars,
            seen == iter.index(),
            seen <= chars.len(),
            keep <= seen,
            keep == trim_end_slashes(chars.take(seen as int)).len(),
    {
        proof {
            let p = chars.take(seen as int);
            let q = chars.take(seen + 1);
            assert(q.drop_last() =~= p);
            assert(q.last() == c);
        }
        seen = seen + 1;
        if c != '/' {
            keep = seen;
        }
    }
    proof {
        assert(chars.take(seen as int) =~= chars);
        lemma_trim_end_prefix(chars);
    }
    s.substring_char(0, keep)
}

/// Every character of `s` is white space (true of the empty string).
pub open spec fn all_white_space(s: Seq<char>) -> bool {
    forall|i: int| 0 <= i < s.len() ==> is_white_space(#[trigger] s[i])
}

/// Some character of `s` is white space.
pub open spec fn has_white_space(s: Seq<char>) -> bool {
    exists|i: int| 0 <= i < s.len() && is_white_space(#[trigger] s[i])
}

/// Scans `s` once and answers whether all of it, and whether any of it, is
/// white space. The first answer is what `s.trim().is_empty()` says, the
/// second what `s.contains(char::is_whitespace)` says.
pub fn scan_white_space(s: &str) -> (r: (bool, bool))
    ensures
        r.0 == all_white_space(s@),
        r.1 == has_white_space(s@),
{
    let mut all = true;
    let mut any = false;
    let mut seen: usize = 0;
    let ghost chars = s@;
    let total: usize = s.unicode_len();
    for c in iter: s.chars()
        invariant
            chars == s@,
            total == chars.len(),
            iter.seq() == chars,
            seen == iter.index(),
            seen <= chars.len(),
            all == all_white_space(chars.take(seen as int)),
            any == has_white_space(chars.take(seen as int)),
    {
        let ws = is_whitespace(c);
        proof {
            let p = chars.take(seen as int);
            let q = chars.take(seen + 1);
            assert(q =~= p.push(c));
            if ws {
                assert(q[seen as int] == c);
            }
            if !all {
                let k: int = choose|k: int| 0 <= k < p.len() && !is_white_space(p[k]);
                assert(q[k] == p[k]);
            }
            if any {
                let k: int = choose|k: int| 0 <= k < p.len() && is_white_space(p[k]);
                assert(q[k] == p[k]);
            }
            if !ws {
                assert(q[seen as int] == c);
            }
        }
        seen = seen + 1;
        all = all && ws;
        any = any || ws;
    }
    proof {
        assert(chars.take(seen as int) =~= chars);
    }
    (all, any)
}

/// A character that an alias may hold: alphanumeric, `-` or `_`.
pub open spec fn is_alias_char(c: char) -> bool {
    alphanumeric(c) || c == '-' || c == '_'
}

/// Every character of `s` may stand in an alias.
pub open spec fn all_alias_chars(s: Seq<char>) -> bool {
    forall|i: int| 0 <= i < s.len() ==> is_alias_char(#[trigger] s[i])
}

/// Whether every character of `s` is alphanumeric, `-` or `_`.
pub fn only_alias_chars(s: &str) -> (r: bool)
    ensures
        r == all_alias_chars(s@),
{
    let mut seen: usize = 0;
    let ghost chars = s@;
    let total: usize = s.unicode_len();
    for c in iter: s.chars()
        invariant
            chars == s@,
            total == chars.len(),
            iter.seq() == chars,
            seen == iter.index(),
            seen <= chars.len(),
            all_alias_chars(chars.take(seen as int)),
    {
        let ok = is_alphanumeric(c) || c == '-' || c == '_';
        proof {
            let q = chars.take(seen + 1);
            assert(q[seen as int] == c);
            assert(chars[seen as int] == c);
        }
        if !ok {
            return false;
        }
        proof {
            let p = chars.take(seen as int);
            let q = chars.take(seen + 1);
            assert(q =~= p.push(c));
        }
        seen = seen + 1;
    }
    proof {
        assert(chars.take(seen as int) =~= chars);
    }
    true
}

} // verus!
