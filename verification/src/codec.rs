//! Outside encoders: base64 text, random identifiers and UTF-8.

use base64::Engine;
use vstd::prelude::*;

verus! {

/// What `base64::engine::general_purpose::STANDARD` encodes the given bytes to.
pub uninterp spec fn base64_text(data: Seq<u8>) -> Seq<char>;

/// What `base64::engine::general_purpose::STANDARD` decodes the given text to, or `None` where
/// it reports an error.
pub uninterp spec fn base64_data(text: Seq<char>) -> Option<Seq<u8>>;

/// The length of the base64 text for a number of bytes: four characters for every three bytes
/// that have begun.
pub open spec fn base64_len(n: nat) -> nat {
    (n + 2) / 3 * 4
}

/// Calls `base64::Engine::encode` of the standard engine.  Trusted: the result is a function of
/// the bytes, and decoding it with the same engine gives the bytes back.  The buffer for the
/// text is allocated in one piece, so its size has to fit in an `isize`.
#[verifier::external_body]
pub(crate) fn base64_encode(data: &[u8]) -> (text: String)
    requires
        base64_len(data@.len()) <= isize::MAX,
    ensures
        text@ == base64_text(data@),
        base64_data(text@) == Some(data@),
{
    base64::engine::general_purpose::STANDARD.encode(data)
}

/// Calls `base64::Engine::decode` of the standard engine.  Trusted: whether it succeeds, and
/// with which bytes, is a function of the text.
#[verifier::external_body]
pub(crate) fn base64_decode(text: &str) -> (data: Option<Vec<u8>>)
    ensures
        match data {
            Some(d) => base64_data(text@) == Some(d@),
            None => base64_data(text@) is None,
        },
{
    base64::engine::general_purpose::STANDARD.decode(text).ok()
}

/// A lower case hexadecimal digit.
pub open spec fn is_lower_hex(c: char) -> bool {
    ('0' <= c && c <= '9') || ('a' <= c && c <= 'f')
}

/// The hyphenated form of a random UUID: 36 characters, of which four are hyphens at fixed
/// places and the others lower case hexadecimal digits, with version 4 and the variant of
/// RFC 4122 in their places.
pub open spec fn is_random_uuid(text: Seq<char>) -> bool {
    &&& text.len() == 36
    &&& forall|i: int|
        0 <= i < 36 ==> if i == 8 || i == 13 || i == 18 || i == 23 {
            #[trigger] text[i] == '-'
        } else {
            is_lower_hex(text[i])
        }
    &&& text[14] == '4'
    &&& text[19] == '8' || text[19] == '9' || text[19] == 'a' || text[19] == 'b'
}

/// Calls `uuid::Uuid::new_v4`, and `to_string` on the result.  Trusted: the form of the text.
/// Which identifier it is rests on chance.
#[verifier::external_body]
pub(crate) fn random_uuid() -> (text: String)
    ensures
        is_random_uuid(text@),
{
    uuid::Uuid::new_v4().to_string()
}

/// Whether a text was drawn as a random UUID.
pub closed spec fn drawn(text: Seq<char>) -> bool {
    exists|uuid: String| uuid@ == text && #[trigger] call_ensures(random_uuid, (), uuid)
}

/// Draw a random UUID.
pub(crate) fn draw_uuid() -> (text: String)
    ensures
        is_random_uuid(text@),
        drawn(text@),
{
    random_uuid()
}

/// What was drawn came from a call, and has the form of a random UUID.
pub(crate) proof fn law_drawn_by_a_call(text: Seq<char>)
    ensures
        drawn(text) <==> exists|uuid: String|
            uuid@ == text && #[trigger] call_ensures(random_uuid, (), uuid),
        drawn(text) ==> is_random_uuid(text),
{
}

/// Base64 text takes four characters for every three bytes, and a last group for what is left.
pub proof fn law_base64_len(n: nat)
    ensures
        base64_len(n) % 4 == 0,
        3 * base64_len(n) >= 4 * n,
        3 * base64_len(n) < 4 * n + 12,
{
}

/// Calls `String::from_utf8`.  Trusted: it succeeds on well-formed UTF-8 and nothing else, with
/// the characters that the bytes encode.
#[verifier::external_body]
pub(crate) fn text_from_utf8(data: Vec<u8>) -> (text: Option<String>)
    ensures
        match text {
            Some(t) => vstd::utf8::valid_utf8(data@) && t@ == vstd::utf8::decode_utf8(data@),
            None => !vstd::utf8::valid_utf8(data@),
        },
{
    String::from_utf8(data).ok()
}

} // verus!
