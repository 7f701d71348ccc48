//! Small string operations: comparing and joining text.

use vstd::prelude::*;
use vstd::string::StringSliceAdditionalSpecFns;

verus! {

/// The characters of an optional string.
pub open spec fn optional_text(text: Option<String>) -> Option<Seq<char>> {
    match text {
        Some(inner) => Some(inner@),
        None => None,
    }
}

/// The characters of each string in a list.
pub open spec fn texts(list: Seq<String>) -> Seq<Seq<char>> {
    list.map_values(|item: String| item@)
}

/// The characters of an optional borrowed string.
pub open spec fn optional_str(text: Option<&str>) -> Option<Seq<char>> {
    match text {
        Some(inner) => Some(inner@),
        None => None,
    }
}

/// The characters of each string in an optional list.
pub open spec fn optional_texts(list: Option<&Vec<String>>) -> Option<Seq<Seq<char>>> {
    match list {
        Some(inner) => Some(texts(inner@)),
        None => None,
    }
}

/// A result whose error is known by its characters.
pub open spec fn with_error_text<T>(result: Result<T, String>) -> Result<T, Seq<char>> {
    match result {
        Ok(value) => Ok(value),
        Err(message) => Err(message@),
    }
}

/// A result by its view, its error known by its characters.
pub open spec fn viewed<T: View>(result: Result<T, String>) -> Result<T::V, Seq<char>> {
    match result {
        Ok(value) => Ok(value@),
        Err(message) => Err(message@),
    }
}

/// Borrows the text of an optional string.
pub(crate) fn as_str(text: &Option<String>) -> (borrowed: Option<&str>)
    ensures
        optional_str(borrowed) == optional_text(*text),
{
    match text {
        Some(inner) => Some(inner.as_str()),
        None => None,
    }
}

/// Whether two strings hold the same characters.
pub(crate) fn same_text(a: &str, b: &str) -> (same: bool)
    ensures
        same == (a@ == b@),
{
    let left: &[u8] = a.as_bytes();
    let right: &[u8] = b.as_bytes();
    if left.len() != right.len() {
        return false;
    }
    let mut i: usize = 0;
    while i < left.len()
        invariant
            i <= left.len(),
            left@.len() == right@.len(),
            left@ == a.spec_bytes(),
            right@ == b.spec_bytes(),
            forall|j: int| 0 <= j < i ==> left@[j] == right@[j],
        decreases left.len() - i,
    {
        if left[i] != right[i] {
            return false;
        }
        i += 1;
    }
    proof {
        assert(left@ =~= right@);
        vstd::utf8::encode_utf8_decode_utf8(a@);
        vstd::utf8::encode_utf8_decode_utf8(b@);
    }
    true
}

/// The text `head` followed by the text `tail`.
pub(crate) fn join(head: &str, tail: &str) -> (whole: String)
    ensures
        whole@ == head@ + tail@,
{
    let mut whole: String = head.to_owned();
    whole.append(tail);
    whole
}

/// The characters of a list of strings are those of each string, in order:
/// none is left out, and none is added.
pub proof fn law_every_string_is_kept(list: Seq<String>, i: int)
    requires
        0 <= i < list.len(),
    ensures
        texts(list).len() == list.len(),
        texts(list)[i] == list[i]@,
{
}

/// A list holds as many texts as strings, so an empty list has no texts.
pub proof fn law_lists_keep_their_length(list: Seq<String>)
    ensures
        texts(list).len() == list.len(),
{
}

/// An optional text is there exactly when the string is, whichever way the
/// string is held, and has its characters.
pub proof fn law_optional_texts_are_kept(
    owned: Option<String>,
    borrowed: Option<&str>,
    list: Option<&Vec<String>>,
    text: Seq<char>,
)
    ensures
        optional_text(owned) == Some(text) <==> (owned matches Some(inner) && inner@ == text),
        optional_str(borrowed) == Some(text) <==> (borrowed matches Some(inner) && inner@ == text),
        optional_text(owned) is None <==> owned is None,
        optional_str(borrowed) is None <==> borrowed is None,
        optional_texts(list) is None <==> list is None,
        list matches Some(inner) ==> optional_texts(list) == Some(texts(inner@)),
{
}

/// Knowing an error by its characters changes nothing else of a result.
pub proof fn law_results_are_kept<T: View>(result: Result<T, String>, value: T, message: Seq<char>)
    ensures
        with_error_text(result) == Ok::<T, Seq<char>>(value) <==> result == Ok::<T, String>(value),
        with_error_text(result) == Err::<T, Seq<char>>(message) <==> (result matches Err(text)
            && text@ == message),
        viewed(result) == Err::<T::V, Seq<char>>(message) <==> (result matches Err(text) && text@
            == message),
        result matches Ok(inner) ==> viewed(result) == Ok::<T::V, Seq<char>>(inner@),
{
}

} // verus!
