//! Small operations on text that the parsers of the library share.

use vstd::prelude::*;
use vstd::string::StrSliceExecFns;

verus! {

/// Lower-case form of a text under the Unicode case mapping of the standard
/// library.
pub uninterp spec fn lowercase_of(text: Seq<char>) -> Seq<char>;

/// Upper-case form of a text under the Unicode case mapping of the standard
/// library.
pub uninterp spec fn uppercase_of(text: Seq<char>) -> Seq<char>;

/// Calls `str::to_lowercase` of the standard library. The result is a
/// function of the text alone; the contract gives it its name and says
/// nothing else of it.
#[verifier::external_body]
pub(crate) fn to_lowercase(text: &str) -> (r: String)
    ensures
        r@ == lowercase_of(text@),
{
    text.to_lowercase()
}

/// Calls `str::to_uppercase` of the standard library. The result is a
/// function of the text alone; the contract gives it its name and says
/// nothing else of it.
#[verifier::external_body]
pub(crate) fn to_uppercase(text: &str) -> (r: String)
    ensures
        r@ == uppercase_of(text@),
{
    text.to_uppercase()
}

/// The parts of `text` before and after the first `sep`, if it holds one.
pub open spec fn spec_split_once(text: Seq<char>, sep: char) -> Option<(Seq<char>, Seq<char>)> {
    match text.index_of_first(sep) {
        Some(at) => Some((text.take(at), text.skip(at + 1))),
        None => None,
    }
}

/// Position of the first `sep` in `text`.
pub fn find_char(text: &str, sep: char) -> (r: Option<usize>)
    ensures
        match r {
            Some(at) => text@.index_of_first(sep) == Some(at as int),
            None => text@.index_of_first(sep) is None,
        },
        r is Some <==> text@.contains(sep),
{
    let len = text.unicode_len();
    let mut i: usize = 0;
    proof {
        text@.index_of_first_ensures(sep);
    }
    while i < len
        invariant
            i <= len,
            len == text@.len(),
            forall|j: int| 0 <= j < i ==> text@[j] != sep,
            match text@.index_of_first(sep) {
                Some(index) => {
                    &&& text@.contains(sep)
                    &&& 0 <= index < text@.len()
                    &&& text@[index] == sep
                    &&& forall|j: int| 0 <= j < index < text@.len() ==> text@[j] != sep
                },
                None => !text@.contains(sep),
            },
        decreases len - i,
    {
        if text.get_char(i) == sep {
            assert(text@.contains(sep));
            return Some(i);
        }
        i += 1;
    }
    None
}

/// Splits `text` at the first `sep`, which belongs to neither part.
pub fn split_once<'a>(text: &'a str, sep: char) -> (r: Option<(&'a str, &'a str)>)
    ensures
        match r {
            Some((head, tail)) => spec_split_once(text@, sep) == Some((head@, tail@)),
            None => spec_split_once(text@, sep) is None,
        },
        r is Some <==> text@.contains(sep),
{
    match find_char(text, sep) {
        Some(at) => {
            let len = text.unicode_len();
            proof {
                text@.index_of_first_ensures(sep);
            }
            let head = text.substring_char(0, at);
            let tail = text.substring_char(at + 1, len);
            assert(head@ =~= text@.take(at as int));
            assert(tail@ =~= text@.skip(at + 1));
            Some((head, tail))
        },
        None => None,
    }
}

/// Whether two texts hold the same characters.
pub fn same_text(a: &str, b: &str) -> (r: bool)
    ensures
        r == (a@ == b@),
{
    let len = a.unicode_len();
    if len != b.unicode_len() {
        return false;
    }
    let mut i: usize = 0;
    while i < len
        invariant
            i <= len,
            len == a@.len(),
            len == b@.len(),
            forall|j: int| 0 <= j < i ==> a@[j] == b@[j],
        decreases len - i,
    {
        if a.get_char(i) != b.get_char(i) {
            return false;
        }
        i += 1;
    }
    assert(a@ =~= b@);
    true
}

} // verus!
