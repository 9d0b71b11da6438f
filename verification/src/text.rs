//! Small string operations used by the rules of the webhook.

use vstd::prelude::*;

verus! {

/// What `str::to_lowercase` returns for a string, as a sequence of characters.
/// Unicode lower-casing may change the length of a string, so it is named here
/// rather than written out.
pub uninterp spec fn lowercase(s: Seq<char>) -> Seq<char>;

/// A character with the ASCII capitals `A` to `Z` turned into `a` to `z`.
pub open spec fn ascii_lower_char(c: char) -> char {
    if 'A' <= c && c <= 'Z' {
        ((c as u32) + 32) as char
    } else {
        c
    }
}

/// A text with the ASCII capitals turned into small letters.
pub open spec fn ascii_lower(s: Seq<char>) -> Seq<char> {
    s.map_values(|c: char| ascii_lower_char(c))
}

/// Calls `str::to_lowercase`. The contract claims that the result is the
/// value named `lowercase` for the characters of `s`, that is, that the
/// function depends on its argument alone; and that a text made of ASCII
/// characters alone is lowered as `str::to_ascii_lowercase` lowers it (the
/// Unicode lower-case mapping, which the documentation names, takes `A` to `Z`
/// to `a` to `z` and leaves the other ASCII characters as they are). What it
/// gives for other characters is left unsaid.
#[verifier::external_body]
pub(crate) fn to_lowercase(s: &str) -> (res: String)
    ensures
        res@ == lowercase(s@),
        vstd::utf8::is_ascii_chars(s@) ==> res@ == ascii_lower(s@),
{
    s.to_lowercase()
}

/// Whether two string slices hold the same characters.
pub fn str_equals(a: &str, b: &str) -> (res: bool)
    ensures
        res == (a@ == b@),
{
    let n: usize = a.unicode_len();
    if n != b.unicode_len() {
        return false;
    }
    let mut i: usize = 0;
    while i < n
        invariant
            n == a@.len(),
            n == b@.len(),
            i <= n,
            forall|j: int| 0 <= j < i ==> a@[j] == b@[j],
        decreases n - i,
    {
        if a.get_char(i) != b.get_char(i) {
            return false;
        }
        i = i + 1;
    }
    assert(a@ =~= b@);
    true
}

/// Whether two optional strings are equal: both absent, or both present with
/// the same characters.
pub fn option_string_equals(a: &Option<String>, b: &Option<String>) -> (res: bool)
    ensures
        res == (a.is_some() == b.is_some() && (a.is_some() ==> a->0@ == b->0@)),
{
    match (a, b) {
        (Some(x), Some(y)) => str_equals(x.as_str(), y.as_str()),
        (None, None) => true,
        _ => false,
    }
}

/// A new string made of `a` followed by `b`.
pub fn concat(a: &str, b: &str) -> (res: String)
    ensures
        res@ == a@ + b@,
{
    let mut s = String::from_str(a);
    s.append(b);
    s
}

} // verus!
