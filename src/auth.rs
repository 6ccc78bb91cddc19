//! Comparison of a supplied secret against the configured one, modulo
//! surrounding whitespace and letter case.
//!
//! The normalization is deliberate: operators paste secrets with incidental
//! whitespace or case drift, so the secret space is case-insensitive.
use vstd::prelude::*;

verus! {

/// The characters with the Unicode `White_Space` property.
pub open spec fn is_white_space(c: char) -> bool {
    ||| ('\u{9}' <= c && c <= '\u{d}')
    ||| c == ' '
    ||| c == '\u{85}'
    ||| c == '\u{a0}'
    ||| c == '\u{1680}'
    ||| ('\u{2000}' <= c && c <= '\u{200a}')
    ||| c == '\u{2028}'
    ||| c == '\u{2029}'
    ||| c == '\u{202f}'
    ||| c == '\u{205f}'
    ||| c == '\u{3000}'
}

/// `s` without its leading white space.
pub open spec fn trim_leading(s: Seq<char>) -> Seq<char>
    decreases s.len(),
{
    if s.len() > 0 && is_white_space(s[0]) {
        trim_leading(s.drop_first())
    } else {
        s
    }
}

/// `s` without its trailing white space.
pub open spec fn trim_trailing(s: Seq<char>) -> Seq<char>
    decreases s.len(),
{
    if s.len() > 0 && is_white_space(s.last()) {
        trim_trailing(s.drop_last())
    } else {
        s
    }
}

/// `s` without leading or trailing white space.
pub open spec fn trimmed(s: Seq<char>) -> Seq<char> {
    trim_trailing(trim_leading(s))
}

/// The lower-case form of `s`, as Unicode case mapping gives it.
pub uninterp spec fn lower_of(s: Seq<char>) -> Seq<char>;

/// The form in which two secrets are compared: lower-cased, then trimmed.
pub open spec fn normalized(s: Seq<char>) -> Seq<char> {
    trimmed(lower_of(s))
}

/// Relies on `str::to_lowercase`: the result depends on the characters alone.
#[verifier::external_body]
fn lowercase(s: &str) -> (r: String)
    ensures
        r@ == lower_of(s@),
{
    s.to_lowercase()
}

/// Relies on `str::trim`: leading and trailing `White_Space` characters are
/// removed, and nothing else.
#[verifier::external_body]
fn trim_white_space(s: &str) -> (r: &str)
    ensures
        r@ == trimmed(s@),
{
    s.trim()
}

/// The form of `s` in which secrets are compared, as an owned string.
fn normalize(s: &str) -> (r: String)
    ensures
        r@ == normalized(s@),
{
    let lower = lowercase(s);
    trim_white_space(lower.as_str()).to_owned()
}

/// Whether `candidate` is accepted as the secret `configured`: both are
/// lower-cased and stripped of surrounding white space, then compared
/// exactly. The comparison does not run in constant time.
pub fn secrets_match(candidate: &str, configured: &str) -> (r: bool)
    ensures
        r == (normalized(candidate@) == normalized(configured@)),
{
    let c = normalize(candidate);
    let s = normalize(configured);
    c == s
}

} // verus!
