//! The headers of the request: which values may stand in a header, and the
//! header map that a request carries.
//!
//! The map is the `HeaderMap` of the `http` crate, as `reqwest` hands it on.
//! Verus does not look inside it; what it holds is spoken of through
//! [`header_entries`].

use vstd::prelude::*;
use vstd::utf8::encode_utf8;
use reqwest::header::{HeaderMap, HeaderName, HeaderValue, InvalidHeaderValue};
use crate::error::ScraperError;

verus! {

/// `http::header::HeaderMap`, a multimap from header names to header values.
#[verifier::external_type_specification]
#[verifier::external_body]
#[verifier::reject_recursive_types(T)]
pub struct ExHeaderMap<T>(HeaderMap<T>);

/// `http::header::HeaderName`, the name of a header in lower case.
#[verifier::external_type_specification]
#[verifier::external_body]
pub struct ExHeaderName(HeaderName);

/// `http::header::HeaderValue`, the bytes of a header's value.
#[verifier::external_type_specification]
#[verifier::external_body]
pub struct ExHeaderValue(HeaderValue);

/// `http::header::InvalidHeaderValue`, which says no more than that a value
/// was refused.
#[verifier::external_type_specification]
#[verifier::external_body]
pub struct ExInvalidHeaderValue(InvalidHeaderValue);

/// What a header map holds: for each name that is present, its values in the
/// order in which `HeaderMap::get_all` yields them, each as
/// `HeaderValue::as_bytes` gives it. A name that is absent is no key.
pub uninterp spec fn header_entries(headers: HeaderMap) -> Map<Seq<char>, Seq<Seq<u8>>>;

/// The text of a header name, as `HeaderName::as_str` gives it.
pub uninterp spec fn header_name_text(name: HeaderName) -> Seq<char>;

/// The bytes of a header value, as `HeaderValue::as_bytes` gives them.
pub uninterp spec fn header_value_bytes(value: HeaderValue) -> Seq<u8>;

/// The bytes that a header value may hold: the tab, and everything from the
/// space upwards but the delete character.
pub open spec fn valid_header_byte(byte: u8) -> bool {
    byte >= 32 && byte != 127 || byte == 9
}

/// Whether every byte of `bytes` may stand in a header value.
pub open spec fn valid_header_bytes(bytes: Seq<u8>) -> bool {
    forall|i: int| 0 <= i < bytes.len() ==> valid_header_byte(#[trigger] bytes[i])
}

/// The characters that a header value may hold: the tab, and everything from
/// the space upwards but the delete character.
pub open spec fn valid_header_char(c: char) -> bool {
    c == '\t' || (' ' <= c && c != '\u{7f}')
}

/// Whether `text` may stand as a header value: whether each of its
/// characters may.
pub open spec fn valid_header_text(text: Seq<char>) -> bool {
    forall|i: int| 0 <= i < text.len() ==> valid_header_char(#[trigger] text[i])
}

/// `HeaderMap::new`: the map that holds no header.
#[verifier::external_body]
fn empty_header_map() -> (headers: HeaderMap)
    ensures
        header_entries(headers) == (Map::<Seq<char>, Seq<Seq<u8>>>::empty()),
{
    HeaderMap::new()
}

/// `HeaderMap::insert`: afterwards `name` has the one value `value`, whatever
/// it had before, and every other name has what it had.
///
/// `insert` panics only where its table, which has at most 32768 slots, would
/// have to grow once more, and a table of that size is not grown while it
/// holds fewer than 6554 names. The contract asks for fewer than 4096.
#[verifier::external_body]
fn insert_header(headers: &mut HeaderMap, name: HeaderName, value: HeaderValue)
    requires
        header_entries(*old(headers)).dom().finite(),
        header_entries(*old(headers)).dom().len() < 4096,
    ensures
        header_entries(*final(headers)) == header_entries(*old(headers)).insert(
            header_name_text(name),
            seq![header_value_bytes(value)],
        ),
{
    headers.insert(name, value);
}

/// `str::parse` to a `HeaderValue`, which is `HeaderValue::from_str`: it
/// accepts a text exactly if each of its bytes is a tab or at least 32 and not
/// 127, and the value then holds the bytes of the text.
#[verifier::external_body]
fn parse_header_value(text: &str) -> (r: Result<HeaderValue, InvalidHeaderValue>)
    ensures
        r is Ok <==> valid_header_bytes(encode_utf8(text@)),
        r is Ok ==> header_value_bytes(r->Ok_0) == encode_utf8(text@),
{
    text.parse()
}

/// The constant `http::header::USER_AGENT`, whose text is `user-agent`.
#[verifier::external_body]
fn user_agent_name() -> (name: HeaderName)
    ensures
        header_name_text(name) == "user-agent"@,
{
    reqwest::header::USER_AGENT
}

/// The constant `http::header::REFERER`, whose text is `referer`.
#[verifier::external_body]
fn referer_name() -> (name: HeaderName)
    ensures
        header_name_text(name) == "referer"@,
{
    reqwest::header::REFERER
}

/// The constant `http::header::CONTENT_TYPE`, whose text is `content-type`.
#[verifier::external_body]
fn content_type_name() -> (name: HeaderName)
    ensures
        header_name_text(name) == "content-type"@,
{
    reqwest::header::CONTENT_TYPE
}

/// The bytes of two sequences may all stand in a header value exactly if
/// those of both may.
proof fn lemma_valid_bytes_concat(a: Seq<u8>, b: Seq<u8>)
    ensures
        valid_header_bytes(a + b) <==> valid_header_bytes(a) && valid_header_bytes(b),
{
    let ab = a + b;
    if valid_header_bytes(ab) {
        assert forall|i: int| 0 <= i < a.len() implies valid_header_byte(#[trigger] a[i]) by {
            assert(ab[i] == a[i]);
        }
        assert forall|i: int| 0 <= i < b.len() implies valid_header_byte(#[trigger] b[i]) by {
            assert(ab[a.len() + i] == b[i]);
        }
    }
    if valid_header_bytes(a) && valid_header_bytes(b) {
        assert forall|i: int| 0 <= i < ab.len() implies valid_header_byte(#[trigger] ab[i]) by {
            if i < a.len() {
                assert(ab[i] == a[i]);
            } else {
                assert(ab[i] == b[i - a.len()]);
            }
        }
    }
}

/// A byte with its highest bit set may stand in a header value. Every byte
/// of the encoding of a character beyond ASCII is of one of these four forms.
proof fn lemma_high_bytes_valid(low: u8)
    ensures
        valid_header_byte(0x80 | low),
        valid_header_byte(0xC0 | low),
        valid_header_byte(0xE0 | low),
        valid_header_byte(0xF0 | low),
{
    assert(0x80u8 | low >= 0x80) by (bit_vector);
    assert(0xC0u8 | low >= 0x80) by (bit_vector);
    assert(0xE0u8 | low >= 0x80) by (bit_vector);
    assert(0xF0u8 | low >= 0x80) by (bit_vector);
}

/// The encoding of one character may stand in a header value exactly if the
/// character may.
proof fn lemma_valid_char_bytes(c: char)
    ensures
        valid_header_bytes(vstd::utf8::encode_scalar(c as u32)) <==> valid_header_char(c),
{
    let scalar = c as u32;
    let bytes = vstd::utf8::encode_scalar(scalar);
    if vstd::utf8::has_width_1_encoding(scalar) {
        assert(scalar & 0x7F == scalar) by (bit_vector)
            requires
                scalar <= 0x7F,
        ;
        assert(bytes[0] == scalar as u8);
    } else {
        lemma_high_bytes_valid((scalar & 0x3F) as u8);
        lemma_high_bytes_valid(((scalar >> 6) & 0x3F) as u8);
        lemma_high_bytes_valid(((scalar >> 12) & 0x3F) as u8);
        lemma_high_bytes_valid(((scalar >> 6) & 0x1F) as u8);
        lemma_high_bytes_valid(((scalar >> 12) & 0x0F) as u8);
        lemma_high_bytes_valid(((scalar >> 18) & 0x7) as u8);
    }
}

/// Which texts are header values, said of their characters: the bytes of a
/// text's UTF-8 encoding may all stand in a header value exactly if each of
/// its characters may.
pub proof fn lemma_header_text_bytes(text: Seq<char>)
    ensures
        valid_header_bytes(encode_utf8(text)) <==> valid_header_text(text),
    decreases text.len(),
{
    if text.len() > 0 {
        let rest = text.drop_first();
        lemma_header_text_bytes(rest);
        lemma_valid_char_bytes(text[0]);
        lemma_valid_bytes_concat(vstd::utf8::encode_scalar(text[0] as u32), encode_utf8(rest));
        if valid_header_text(text) {
            assert forall|i: int| 0 <= i < rest.len() implies valid_header_char(
                #[trigger] rest[i],
            ) by {
                assert(rest[i] == text[i + 1]);
            }
        }
        if valid_header_char(text[0]) && valid_header_text(rest) {
            assert forall|i: int| 0 <= i < text.len() implies valid_header_char(
                #[trigger] text[i],
            ) by {
                if i > 0 {
                    assert(text[i] == rest[i - 1]);
                }
            }
        }
    }
}

/// Turns `text` into a header value, or says that it cannot be one.
pub fn header_value(text: &str) -> (r: Result<HeaderValue, ScraperError>)
    ensures
        match r {
            Ok(value) => valid_header_text(text@) && header_value_bytes(value) == encode_utf8(
                text@,
            ),
            Err(e) => !valid_header_text(text@) && e == ScraperError::InvalidHeaderMapValue,
        },
{
    proof {
        lemma_header_text_bytes(text@);
    }
    match parse_header_value(text) {
        Ok(value) => Ok(value),
        Err(_) => Err(ScraperError::InvalidHeaderMapValue),
    }
}

/// The map that holds the three headers of a request and nothing else.
pub open spec fn header_set(
    user_agent: Seq<char>,
    referer: Seq<char>,
    content_type: Seq<char>,
) -> Map<Seq<char>, Seq<Seq<u8>>> {
    Map::empty().insert("user-agent"@, seq![encode_utf8(user_agent)]).insert(
        "referer"@,
        seq![encode_utf8(referer)],
    ).insert("content-type"@, seq![encode_utf8(content_type)])
}

/// A map of [`header_set`] holds the three headers and no other, each with
/// the one value that it was given.
pub proof fn lemma_header_set_entries(
    user_agent: Seq<char>,
    referer: Seq<char>,
    content_type: Seq<char>,
)
    ensures
        header_set(user_agent, referer, content_type).dom() =~= set![
            "user-agent"@,
            "referer"@,
            "content-type"@,
        ],
        header_set(user_agent, referer, content_type).dom().len() == 3,
        header_set(user_agent, referer, content_type)["user-agent"@] == seq![
            encode_utf8(user_agent),
        ],
        header_set(user_agent, referer, content_type)["referer"@] == seq![encode_utf8(referer)],
        header_set(user_agent, referer, content_type)["content-type"@] == seq![
            encode_utf8(content_type),
        ],
{
    reveal_strlit("user-agent");
    reveal_strlit("referer");
    reveal_strlit("content-type");
    assert("user-agent"@.len() != "referer"@.len());
    assert("user-agent"@.len() != "content-type"@.len());
    assert("referer"@.len() != "content-type"@.len());
}

/// Builds the header map with the given `User-Agent`, `Referer` and
/// `Content-Type`. It fails exactly if one of the three cannot be a header
/// value.
pub fn header_map_of(user_agent: &str, referer: &str, content_type: &str) -> (r: Result<
    HeaderMap,
    ScraperError,
>)
    ensures
        r is Ok <==> valid_header_text(user_agent@) && valid_header_text(referer@)
            && valid_header_text(content_type@),
        r is Ok ==> header_entries(r->Ok_0) == header_set(user_agent@, referer@, content_type@),
        r is Err ==> r->Err_0 == ScraperError::InvalidHeaderMapValue,
{
    let mut headers = empty_header_map();
    let value = header_value(user_agent)?;
    insert_header(&mut headers, user_agent_name(), value);
    let value = header_value(referer)?;
    insert_header(&mut headers, referer_name(), value);
    let value = header_value(content_type)?;
    insert_header(&mut headers, content_type_name(), value);
    Ok(headers)
}

/// The `User-Agent` that every request carries.
pub const USER_AGENT_VALUE: &'static str =
    "Mozilla/5.0 (Windows NT 10.0; Win64; x64; rv:105.0) Gecko/20100101 Firefox/105.0";

/// The `Referer` that every request carries.
pub const REFERER_VALUE: &'static str = "https://google.com/";

/// The `Content-Type` that every request carries.
pub const CONTENT_TYPE_VALUE: &'static str = "application/x-www-form-urlencoded";

/// The headers of every request.
pub open spec fn fixed_headers() -> Map<Seq<char>, Seq<Seq<u8>>> {
    header_set(USER_AGENT_VALUE@, REFERER_VALUE@, CONTENT_TYPE_VALUE@)
}

/// Builds the header map of every request. The three values are header
/// values, so this does not fail.
pub fn request_headers() -> (r: Result<HeaderMap, ScraperError>)
    ensures
        r is Ok,
        header_entries(r->Ok_0) == fixed_headers(),
{
    proof {
        reveal_strlit(
            "Mozilla/5.0 (Windows NT 10.0; Win64; x64; rv:105.0) Gecko/20100101 Firefox/105.0",
        );
        reveal_strlit("https://google.com/");
        reveal_strlit("application/x-www-form-urlencoded");
    }
    header_map_of(USER_AGENT_VALUE, REFERER_VALUE, CONTENT_TYPE_VALUE)
}

} // verus!
