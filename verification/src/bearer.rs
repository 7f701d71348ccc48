//! Reading the bearer token out of an `Authorization` header.

use crate::api_error::{answers, ApiError};
use vstd::prelude::*;
use vstd::string::StringSliceAdditionalSpecFns;

verus! {

/// Whether a byte of a header value can be read as text: a visible ASCII
/// character, a space or a tab.
pub open spec fn is_text_byte(byte: u8) -> bool {
    32 <= byte < 127 || byte == 9
}

/// Whether a header value can be read as text.
pub open spec fn is_text(value: Seq<u8>) -> bool {
    forall|i: int| 0 <= i < value.len() ==> is_text_byte(#[trigger] value[i])
}

/// A header value read as text.
pub open spec fn header_text(value: Seq<u8>) -> Seq<char> {
    value.map_values(|byte: u8| byte as char)
}

/// What follows the scheme name and the space behind it.
pub open spec fn after_scheme(text: Seq<char>) -> Option<Seq<char>> {
    if "Bearer "@.is_prefix_of(text) || "bearer "@.is_prefix_of(text) {
        Some(text.skip(7))
    } else {
        None
    }
}

/// Whether a character is white space that a header value can hold.
pub open spec fn is_blank(c: char) -> bool {
    c == ' ' || c == '\t'
}

/// The text without the blanks it starts with.
pub open spec fn trim_start(text: Seq<char>) -> Seq<char>
    decreases text.len(),
{
    if text.len() > 0 && is_blank(text.first()) {
        trim_start(text.drop_first())
    } else {
        text
    }
}

/// The text without the blanks it ends with.
pub open spec fn trim_end(text: Seq<char>) -> Seq<char>
    decreases text.len(),
{
    if text.len() > 0 && is_blank(text.last()) {
        trim_end(text.drop_last())
    } else {
        text
    }
}

/// The bytes of an optional header value.
pub open spec fn optional_bytes(header: Option<&[u8]>) -> Option<Seq<u8>> {
    match header {
        Some(value) => Some(value@),
        None => None,
    }
}

/// The token that an `Authorization` header value carries, or why it carries
/// none.
pub open spec fn bearer_token(header: Option<Seq<u8>>) -> Result<Seq<char>, Seq<char>> {
    match header {
        None => Err("missing Authorization header"@),
        Some(value) => if !is_text(value) {
            Err("Authorization header is not valid ASCII"@)
        } else {
            match after_scheme(header_text(value)) {
                None => Err("expected 'Bearer <token>'"@),
                Some(rest) => {
                    let token = trim_end(trim_start(rest));
                    if token.len() == 0 {
                        Err("empty bearer token"@)
                    } else {
                        Ok(token)
                    }
                },
            }
        },
    }
}

/// Reads a header value as text, where it is text.
fn read_text(value: &[u8]) -> (text: Option<&str>)
    ensures
        (text is Some) == is_text(value@),
        text matches Some(inner) ==> inner@ == header_text(value@) && inner.is_ascii(),
{
    let mut i: usize = 0;
    while i < value.len()
        invariant
            i <= value.len(),
            forall|j: int| 0 <= j < i ==> is_text_byte(#[trigger] value@[j]),
        decreases value.len() - i,
    {
        let byte: u8 = value[i];
        if !((32 <= byte && byte < 127) || byte == 9) {
            assert(!is_text_byte(value@[i as int]));
            return None;
        }
        i += 1;
    }
    proof {
        let chars = header_text(value@);
        assert(vstd::utf8::is_ascii_chars(chars)) by {
            assert forall|j: int| 0 <= j < chars.len() implies '\0' <= #[trigger] chars[j]
                <= '\u{7f}' by {
                assert(is_text_byte(value@[j]));
            }
        }
        vstd::utf8::is_ascii_chars_encode_utf8(chars);
        assert forall|j: int| 0 <= j < chars.len() implies vstd::utf8::encode_utf8(chars)[j]
            == value@[j] by {
            assert(is_text_byte(value@[j]));
            assert(chars[j] as u8 == value@[j]);
        }
        assert(vstd::utf8::encode_utf8(chars) =~= value@);
        vstd::utf8::encode_utf8_valid_utf8(chars);
        vstd::utf8::encode_utf8_decode_utf8(chars);
    }
    match core::str::from_utf8(value) {
        Ok(text) => {
            proof {
                vstd::utf8::encode_utf8_decode_utf8(text@);
            }
            Some(text)
        },
        Err(_) => None,
    }
}

/// Whether `text` starts with the seven characters of `scheme`.
fn has_scheme(text: &str, scheme: &str) -> (found: bool)
    requires
        text.is_ascii(),
        scheme.is_ascii(),
        scheme@.len() == 7,
    ensures
        found == scheme@.is_prefix_of(text@),
{
    let length: usize = text.unicode_len();
    if length < 7 {
        return false;
    }
    let head: &str = text.substring_ascii(0, 7);
    let found: bool = crate::text::same_text(head, scheme);
    proof {
        assert(head@ =~= text@.subrange(0, 7));
        if scheme@.is_prefix_of(text@) {
            assert(head@ =~= scheme@);
        }
    }
    found
}

proof fn lemma_trim_start(text: Seq<char>, from: int)
    requires
        0 <= from <= text.len(),
        forall|j: int| 0 <= j < from ==> is_blank(#[trigger] text[j]),
        from < text.len() ==> !is_blank(text[from]),
    ensures
        trim_start(text) == text.skip(from),
    decreases from,
{
    if from > 0 {
        assert(is_blank(text[0]));
        lemma_trim_start(text.drop_first(), from - 1);
        assert(text.drop_first().skip(from - 1) =~= text.skip(from));
    } else {
        assert(text.skip(0) =~= text);
    }
}

proof fn lemma_trim_end(text: Seq<char>, to: int)
    requires
        0 <= to <= text.len(),
        forall|j: int| to <= j < text.len() ==> is_blank(#[trigger] text[j]),
        to > 0 ==> !is_blank(text[to - 1]),
    ensures
        trim_end(text) == text.take(to),
    decreases text.len() - to,
{
    if to < text.len() {
        assert(is_blank(text[text.len() - 1]));
        lemma_trim_end(text.drop_last(), to);
        assert(text.drop_last().take(to) =~= text.take(to));
    } else {
        assert(text.take(to) =~= text);
    }
}

/// The part of `text` from `from` on, without the blanks at its two ends.
fn trimmed(text: &str, from: usize) -> (rest: &str)
    requires
        text.is_ascii(),
        from <= text@.len(),
    ensures
        rest@ == trim_end(trim_start(text@.skip(from as int))),
{
    let length: usize = text.unicode_len();
    let mut start: usize = from;
    while start < length && is_blank_byte(text.get_ascii(start))
        invariant
            text.is_ascii(),
            length == text@.len(),
            from <= start <= length,
            forall|j: int| from <= j < start ==> is_blank(#[trigger] text@[j]),
        ensures
            start < length ==> !is_blank(text@[start as int]),
        decreases length - start,
    {
        start += 1;
    }
    let mut end: usize = length;
    while end > start && is_blank_byte(text.get_ascii(end - 1))
        invariant
            text.is_ascii(),
            length == text@.len(),
            start <= end <= length,
            forall|j: int| end <= j < length ==> is_blank(#[trigger] text@[j]),
        ensures
            end > start ==> !is_blank(text@[end - 1]),
        decreases end,
    {
        end -= 1;
    }
    proof {
        let whole = text@.skip(from as int);
        assert forall|j: int| 0 <= j < start - from implies is_blank(#[trigger] whole[j]) by {
            assert(is_blank(text@[j + from]));
        }
        lemma_trim_start(whole, start - from);
        let tail = whole.skip(start - from);
        assert(tail =~= text@.skip(start as int));
        assert forall|j: int| end - start <= j < tail.len() implies is_blank(
            #[trigger] tail[j],
        ) by {
            assert(is_blank(text@[j + start]));
        }
        lemma_trim_end(tail, end - start);
        assert(tail.take(end - start) =~= text@.subrange(start as int, end as int));
    }
    text.substring_ascii(start, end)
}

/// Whether an ASCII byte is a blank.
fn is_blank_byte(byte: u8) -> (blank: bool)
    ensures
        blank == (byte == 32 || byte == 9),
{
    byte == 32 || byte == 9
}

/// Reads the token out of the value of the `Authorization` header, `None`
/// standing for a request without that header.
pub fn extract_bearer_token(header: Option<&[u8]>) -> (token: Result<&str, ApiError>)
    ensures
        answers(token, bearer_token(optional_bytes(header))),
        header matches Some(value) ==> answers(token, bearer_token(Some(value@))),
        header is None ==> answers(token, bearer_token(None)),
{
    let value: &[u8] = match header {
        Some(value) => value,
        None => {
            return Err(ApiError::Unauthorized("missing Authorization header".to_owned()));
        },
    };
    let text: &str = match read_text(value) {
        Some(text) => text,
        None => {
            return Err(
                ApiError::Unauthorized("Authorization header is not valid ASCII".to_owned()),
            );
        },
    };
    proof {
        reveal_strlit("Bearer ");
        reveal_strlit("bearer ");
    }
    if !has_scheme(text, "Bearer ") && !has_scheme(text, "bearer ") {
        return Err(ApiError::Unauthorized("expected 'Bearer <token>'".to_owned()));
    }
    let token: &str = trimmed(text, 7);
    if token.is_empty() {
        return Err(ApiError::Unauthorized("empty bearer token".to_owned()));
    }
    Ok(token)
}

proof fn lemma_trimmed_shape(text: Seq<char>)
    ensures
        ({
            let token = trim_end(trim_start(text));
            token.len() > 0 ==> !is_blank(token.first()) && !is_blank(token.last())
        }),
{
    lemma_trim_start_shape(text);
    lemma_trim_end_shape(trim_start(text));
}

proof fn lemma_trim_start_shape(text: Seq<char>)
    ensures
        trim_start(text).len() > 0 ==> !is_blank(trim_start(text).first()),
    decreases text.len(),
{
    if text.len() > 0 && is_blank(text.first()) {
        lemma_trim_start_shape(text.drop_first());
    }
}

proof fn lemma_trim_end_shape(text: Seq<char>)
    ensures
        trim_end(text).len() > 0 ==> !is_blank(trim_end(text).last()) && trim_end(text).first()
            == text.first(),
    decreases text.len(),
{
    if text.len() > 0 && is_blank(text.last()) {
        lemma_trim_end_shape(text.drop_last());
    }
}

/// A token that is read is not empty, and neither starts nor ends with a blank.
pub proof fn law_token_is_trimmed(header: Option<Seq<u8>>)
    ensures
        bearer_token(header) matches Ok(token) ==> token.len() > 0 && !is_blank(token.first())
            && !is_blank(token.last()),
{
    if let Some(value) = header {
        if let Some(rest) = after_scheme(header_text(value)) {
            lemma_trimmed_shape(rest);
        }
    }
}

/// Any token without blanks at its ends is read back out of a header value
/// that carries it behind either spelling of the scheme, whatever blanks
/// stand around it.
pub proof fn law_token_is_read_back(
    value: Seq<u8>,
    scheme: Seq<char>,
    before: Seq<char>,
    token: Seq<char>,
    behind: Seq<char>,
)
    requires
        value.len() == (scheme + before + token + behind).len(),
        forall|i: int|
            0 <= i < value.len() ==> #[trigger] value[i] as char == (scheme + before + token
                + behind)[i],
        forall|i: int|
            0 <= i < value.len() ==> 32 <= #[trigger] value[i] && value[i] < 127 || value[i] == 9,
        scheme == "Bearer "@ || scheme == "bearer "@,
        forall|i: int|
            0 <= i < before.len() ==> #[trigger] before[i] == ' ' || before[i] == '\t',
        forall|i: int|
            0 <= i < behind.len() ==> #[trigger] behind[i] == ' ' || behind[i] == '\t',
        token.len() > 0,
        token.first() != ' ' && token.first() != '\t',
        token.last() != ' ' && token.last() != '\t',
    ensures
        bearer_token(Some(value)) == Ok::<Seq<char>, Seq<char>>(token),
{
    reveal_strlit("Bearer ");
    reveal_strlit("bearer ");
    let text = header_text(value);
    assert(text =~= scheme + before + token + behind);
    assert(scheme.is_prefix_of(text)) by {
        assert(text.subrange(0, 7) =~= scheme);
    }
    let rest = text.skip(7);
    assert(rest =~= before + token + behind);
    assert forall|j: int| 0 <= j < before.len() implies is_blank(#[trigger] rest[j]) by {
        assert(is_blank(before[j]));
    }
    lemma_trim_start(rest, before.len() as int);
    let tail = rest.skip(before.len() as int);
    assert(tail =~= token + behind);
    assert forall|j: int| token.len() <= j < tail.len() implies is_blank(#[trigger] tail[j]) by {
        assert(is_blank(behind[j - token.len()]));
    }
    lemma_trim_end(tail, token.len() as int);
    assert(tail.take(token.len() as int) =~= token);
}

/// A header value with a byte that is neither visible ASCII, nor a space, nor a
/// tab, is refused as unreadable.
pub proof fn law_unreadable_header_is_refused(value: Seq<u8>, i: int)
    requires
        0 <= i < value.len(),
        value[i] < 32 || value[i] >= 127,
        value[i] != 9,
    ensures
        bearer_token(Some(value)) == Err::<Seq<char>, Seq<char>>(
            "Authorization header is not valid ASCII"@,
        ),
{
    assert(!is_text_byte(value[i]));
}

/// A request without the header is refused as such.
pub proof fn law_absent_header_is_refused()
    ensures
        bearer_token(None) == Err::<Seq<char>, Seq<char>>("missing Authorization header"@),
{
}

/// A readable header value that starts with neither spelling of the scheme is
/// refused, whatever else it holds.
pub proof fn law_other_scheme_is_refused(value: Seq<u8>, text: Seq<char>)
    requires
        text.len() == value.len(),
        forall|i: int| 0 <= i < value.len() ==> #[trigger] text[i] == value[i] as char,
        forall|i: int|
            0 <= i < value.len() ==> 32 <= #[trigger] value[i] && value[i] < 127 || value[i] == 9,
        !"Bearer "@.is_prefix_of(text),
        !"bearer "@.is_prefix_of(text),
    ensures
        bearer_token(Some(value)) == Err::<Seq<char>, Seq<char>>("expected 'Bearer <token>'"@),
{
    assert(header_text(value) =~= text);
}

/// A header value that holds nothing but blanks behind the scheme is refused.
pub proof fn law_blank_token_is_refused(value: Seq<u8>, scheme: Seq<char>, blanks: Seq<char>)
    requires
        value.len() == scheme.len() + blanks.len(),
        forall|i: int|
            0 <= i < value.len() ==> #[trigger] value[i] as char == (scheme + blanks)[i],
        forall|i: int|
            0 <= i < value.len() ==> 32 <= #[trigger] value[i] && value[i] < 127 || value[i] == 9,
        scheme == "Bearer "@ || scheme == "bearer "@,
        forall|i: int|
            0 <= i < blanks.len() ==> #[trigger] blanks[i] == ' ' || blanks[i] == '\t',
    ensures
        bearer_token(Some(value)) == Err::<Seq<char>, Seq<char>>("empty bearer token"@),
{
    reveal_strlit("Bearer ");
    reveal_strlit("bearer ");
    let text = header_text(value);
    assert(text =~= scheme + blanks);
    assert(scheme.is_prefix_of(text)) by {
        assert(text.subrange(0, 7) =~= scheme);
    }
    let rest = text.skip(7);
    assert(rest =~= blanks);
    lemma_trim_start(rest, rest.len() as int);
    assert(rest.skip(rest.len() as int).len() == 0);
}

/// A header value is read with all of its bytes, and only a request without the
/// header has none.
pub proof fn law_header_bytes_are_kept(header: Option<&[u8]>)
    ensures
        header matches Some(value) ==> optional_bytes(header) == Some(value@),
        header is None ==> optional_bytes(header) is None,
{
}

} // verus!
