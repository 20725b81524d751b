//! Byte encodings and digests done by outside crates (`base64`, `sha2`,
//! `hex`, `serde_json`).
use vstd::prelude::*;
use base64::Engine;
use sha2::Digest;
use crate::json_fields::{json_top_field, JsonFieldView};

verus! {

/// What the standard-alphabet, padded base64 engine gives when decoding
/// `s`: the bytes, or the text of its error.
pub uninterp spec fn base64_decoded(s: Seq<char>) -> Result<Seq<u8>, Seq<char>>;

/// What the standard-alphabet, padded base64 engine gives when encoding
/// `data`.
pub uninterp spec fn base64_encoded(data: Seq<u8>) -> Seq<char>;

/// Decoding `s` gives exactly `data`.
pub open spec fn decodes_to(s: Seq<char>, data: Seq<u8>) -> bool {
    base64_decoded(s) == Ok::<Seq<u8>, Seq<char>>(data)
}

/// The view of a decode result.
pub open spec fn bytes_result_view(r: Result<Vec<u8>, String>) -> Result<Seq<u8>, Seq<char>> {
    match r {
        Ok(v) => Ok(v@),
        Err(e) => Err(e@),
    }
}

/// `base64::engine::general_purpose::STANDARD.decode`, its error turned
/// into its display text.
#[verifier::external_body]
pub(crate) fn base64_decode(s: &str) -> (r: Result<Vec<u8>, String>)
    ensures
        bytes_result_view(r) == base64_decoded(s@),
{
    base64::engine::general_purpose::STANDARD.decode(s).map_err(|e| e.to_string())
}

/// `base64::engine::general_purpose::STANDARD.encode`.  As the engine
/// documents, decoding what it encoded gives the bytes back; its text is
/// made of the base64 alphabet (no white space) and is empty only for no
/// bytes.
#[verifier::external_body]
pub(crate) fn base64_encode(data: &[u8]) -> (r: String)
    ensures
        r@ == base64_encoded(data@),
        decodes_to(r@, data@),
        data@.len() > 0 ==> r@.len() > 0,
        forall|i: int| 0 <= i < r@.len() ==> !crate::text::is_white_space(r@[i]),
{
    base64::engine::general_purpose::STANDARD.encode(data)
}

/// A lower-case hex digit.
pub open spec fn is_lower_hex(c: char) -> bool {
    ('0' <= c <= '9') || ('a' <= c <= 'f')
}

/// The lower-case hex text of the whole SHA-256 digest of the UTF-8 bytes of
/// `s`.
pub uninterp spec fn sha256_hex(s: Seq<char>) -> Seq<char>;

/// `hex::encode(Sha256::digest(s.as_bytes()))`: two lower-case hex digits
/// for each of the digest's 32 bytes.
#[verifier::external_body]
pub(crate) fn sha256_hex64(s: &str) -> (r: String)
    ensures
        r@ == sha256_hex(s@),
        r@.len() == 64,
        forall|i: int| 0 <= i < 64 ==> is_lower_hex(#[trigger] r@[i]),
{
    hex::encode(sha2::Sha256::digest(s.as_bytes()))
}

/// What `serde_json` writes for the object `{k1: v1, k2: v2}` of two string
/// members (keys in the map's order, strings escaped).
pub uninterp spec fn json_string_pair_object(
    k1: Seq<char>,
    v1: Seq<char>,
    k2: Seq<char>,
    v2: Seq<char>,
) -> Seq<char>;

/// Builds a `serde_json::Map` with two string members and writes it with
/// `Value::to_string`, which cannot fail for such a value.  The text is a
/// JSON object (it starts with `{` and ends with `}`), and reading it back
/// gives each member's string (the second one wins if the keys agree).
#[verifier::external_body]
pub(crate) fn json_pair_object(k1: &str, v1: &str, k2: &str, v2: &str) -> (r: String)
    ensures
        r@ == json_string_pair_object(k1@, v1@, k2@, v2@),
        r@.len() >= 2 && r@[0] == '{' && r@.last() == '}',
        json_parse_error(r@) is None,
        json_top_field(r@, k2@) == Some(JsonFieldView::Text(v2@)),
        k1@ != k2@ ==> json_top_field(r@, k1@) == Some(JsonFieldView::Text(v1@)),
{
    let mut m = serde_json::Map::new();
    m.insert(k1.to_string(), serde_json::Value::String(v1.to_string()));
    m.insert(k2.to_string(), serde_json::Value::String(v2.to_string()));
    serde_json::Value::Object(m).to_string()
}

/// The display text of the error `serde_json::from_str::<Value>` gives for
/// `text`, or `None` when `text` is a JSON document.
pub uninterp spec fn json_parse_error(text: Seq<char>) -> Option<Seq<char>>;

/// Parses `text` with `serde_json::from_str::<serde_json::Value>` and keeps
/// only the display text of the error, if any.
#[verifier::external_body]
pub(crate) fn json_error_text(text: &str) -> (r: Option<String>)
    ensures
        crate::text::opt_view(r) == json_parse_error(text@),
{
    serde_json::from_str::<serde_json::Value>(text).err().map(|e| e.to_string())
}

} // verus!
