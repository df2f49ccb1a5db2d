//! The functions of other crates, and of the standard library, that the
//! library calls. Their contracts are not proved here.

use vstd::prelude::*;

verus! {

/// `String::push` appends one character to the end of the string.
pub assume_specification[ String::push ](s: &mut String, c: char)
    ensures
        final(s)@ == old(s)@.push(c),
;

pub open spec fn ascii_lower(c: char) -> char {
    if 'A' <= c <= 'Z' {
        (c as int + 32) as char
    } else {
        c
    }
}

/// `s` with the letters `A` to `Z` replaced by `a` to `z`.
pub open spec fn ascii_lowered(s: Seq<char>) -> Seq<char> {
    Seq::new(s.len(), |i: int| ascii_lower(s[i]))
}

/// Whether every character of `s` is below `limit`.
pub open spec fn all_below(s: Seq<char>, limit: int) -> bool {
    forall|i: int| 0 <= i < s.len() ==> limit > (#[trigger] s[i]) as int
}

/// The Unicode lowercase equivalent of a text.
pub uninterp spec fn lowercased(s: Seq<char>) -> Seq<char>;

/// `str::to_lowercase` maps a text to its Unicode lowercase equivalent. Of
/// ASCII text that is the text with `A` to `Z` replaced by `a` to `z`.
pub assume_specification[ str::to_lowercase ](s: &str) -> (r: String)
    ensures
        r@ == lowercased(s@),
        all_below(s@, 128) ==> r@ == ascii_lowered(s@),
;

/// The ASCII transliteration of a text.
pub uninterp spec fn transliterated(s: Seq<char>) -> Seq<char>;

/// `deunicode::deunicode` maps a text to its ASCII transliteration: the result
/// holds ASCII characters only, and a text whose characters are all below
/// U+007F comes back unchanged.
pub assume_specification[ deunicode::deunicode ](s: &str) -> (r: String)
    ensures
        r@ == transliterated(s@),
        all_below(r@, 128),
        all_below(s@, 127) ==> r@ == s@,
;

/// Whether chrono reads `text` as a date that is written as `format` says.
pub uninterp spec fn reads_as_date(text: Seq<char>, format: Seq<char>) -> bool;

/// Calls `chrono::NaiveDate::parse_from_str` and says whether it succeeded.
/// Whether it does is a function of the text and the format alone.
#[verifier::external_body]
pub(crate) fn is_date(text: &str, format: &str) -> (r: bool)
    ensures
        r == reads_as_date(text@, format@),
{
    chrono::NaiveDate::parse_from_str(text, format).is_ok()
}

} // verus!
