//! Transport-safe text forms of key pairs and tags.
//!
//! A key pair travels as a JSON object with two base64 string fields,
//! `{"public_key":"<base64>","private_key":"<base64>"}`; a tag travels as
//! bare base64 text. Decoding the encoding of a value reproduces it exactly.

use vstd::prelude::*;
use vstd::string::StringExecFns;

use base64::Engine;

use crate::crypto::KeyPair;

verus! {

/// Why a text form could not be decoded.
#[derive(Clone, Copy, Debug, PartialEq, Eq, Structural)]
pub enum DecodeError {
    /// The text is not a JSON object carrying the expected string fields.
    Envelope,
    /// The text, or a field of the envelope, is not valid base64.
    Base64,
}

/// The base64 text (standard alphabet, with padding) of a byte sequence.
/// Left unspecified: the library relies on it being a function of the bytes,
/// and on its characters being plain (see `base64_encode`).
pub uninterp spec fn base64_of(bytes: Seq<u8>) -> Seq<char>;

/// A character that needs no escaping inside a JSON string: a letter, a
/// digit, or one of the few punctuation marks that base64 text and the
/// envelope's field names use.
pub open spec fn plain_char(c: char) -> bool {
    let n = c as u32;
    ||| n == '+' as u32
    ||| n == '/' as u32
    ||| n == '=' as u32
    ||| n == '_' as u32
    ||| 'A' as u32 <= n <= 'Z' as u32
    ||| 'a' as u32 <= n <= 'z' as u32
    ||| '0' as u32 <= n <= '9' as u32
}

/// Text made only of plain characters; inside a JSON string it stands for
/// itself.
pub open spec fn plain_text(s: Seq<char>) -> bool {
    forall|i: int| 0 <= i < s.len() ==> plain_char(#[trigger] s[i])
}

/// The text of a JSON object with two string fields, in the exact form this
/// module emits: no spaces, fields in the given order.
pub open spec fn spec_two_field_object(
    k1: Seq<char>,
    v1: Seq<char>,
    k2: Seq<char>,
    v2: Seq<char>,
) -> Seq<char> {
    "{\""@ + k1 + "\":\""@ + v1 + "\",\""@ + k2 + "\":\""@ + v2 + "\"}"@
}

/// The text form of a key pair with the given raw key bytes.
pub open spec fn spec_key_pair_text(pk: Seq<u8>, sk: Seq<u8>) -> Seq<char> {
    spec_two_field_object("public_key"@, base64_of(pk), "private_key"@, base64_of(sk))
}

/// The text of a JSON object with one string field, in the exact form this
/// module emits.
pub open spec fn spec_one_field_object(k: Seq<char>, v: Seq<char>) -> Seq<char> {
    "{\""@ + k + "\":\""@ + v + "\"}"@
}

/// The JSON text form of a tag with the given raw bytes.
pub open spec fn spec_signature_text(tag: Seq<u8>) -> Seq<char> {
    spec_one_field_object("signature"@, base64_of(tag))
}

/// Relies on base64's `general_purpose::STANDARD` engine (RFC 4648 §4
/// alphabet, with padding), `Engine::encode`: the base64 text of the input,
/// a function of the input bytes alone, made only of alphabet characters
/// and `=`. The length bound keeps the engine's output-size arithmetic from
/// overflowing.
#[verifier::external_body]
fn base64_encode(bytes: &[u8]) -> (r: String)
    requires
        bytes@.len() <= usize::MAX as int / 8,
    ensures
        r@ == base64_of(bytes@),
        plain_text(r@),
{
    base64::engine::general_purpose::STANDARD.encode(bytes)
}

/// Relies on base64's `general_purpose::STANDARD` engine, `Engine::decode`:
/// decoding inverts encoding, so text equal to the encoding of some byte
/// sequence decodes to exactly that sequence. Nothing is promised of other
/// inputs.
#[verifier::external_body]
fn base64_decode(text: &str) -> (r: Option<Vec<u8>>)
    ensures
        match r {
            Some(v) => forall|b: Seq<u8>| text@ == #[trigger] base64_of(b) ==> v@ == b,
            None => forall|b: Seq<u8>| text@ != #[trigger] base64_of(b),
        },
{
    match base64::engine::general_purpose::STANDARD.decode(text) {
        Ok(v) => Some(v),
        Err(_) => None,
    }
}

/// Relies on serde_json (`from_str::<Value>`, `Value::get`, `Value::as_str`):
/// parses the text as JSON and hands out the string values of the two named
/// fields, or `None` where the text is not a JSON object carrying both
/// fields as strings. For distinct plain keys and plain values, the object
/// text `{"k1":"v1","k2":"v2"}` parses back to exactly those values, since
/// no character in them is escaped.
#[verifier::external_body]
fn json_two_string_fields(text: &str, key1: &str, key2: &str) -> (r: Option<(String, String)>)
    ensures
        match r {
            Some(p) => forall|v1: Seq<char>, v2: Seq<char>|
                plain_text(key1@) && plain_text(key2@) && key1@ != key2@ && plain_text(v1)
                    && plain_text(v2) && text@ == #[trigger] spec_two_field_object(
                    key1@,
                    v1,
                    key2@,
                    v2,
                ) ==> p.0@ == v1 && p.1@ == v2,
            None => forall|v1: Seq<char>, v2: Seq<char>|
                plain_text(key1@) && plain_text(key2@) && key1@ != key2@ && plain_text(v1)
                    && plain_text(v2) ==> text@ != #[trigger] spec_two_field_object(
                    key1@,
                    v1,
                    key2@,
                    v2,
                ),
        },
{
    let value: serde_json::Value = match serde_json::from_str(text) {
        Ok(v) => v,
        Err(_) => return None,
    };
    let first = match value.get(key1) {
        Some(f) => f.as_str()?,
        None => return None,
    };
    let second = match value.get(key2) {
        Some(f) => f.as_str()?,
        None => return None,
    };
    Some((first.to_string(), second.to_string()))
}

/// Relies on serde_json (`from_str::<Value>`, `Value::get`, `Value::as_str`):
/// parses the text as JSON and hands out the string value of the named
/// field, or `None` where the text is not a JSON object carrying that field
/// as a string. For a plain key and a plain value, the object text
/// `{"k":"v"}` parses back to exactly that value, since no character in it
/// is escaped.
#[verifier::external_body]
fn json_string_field(text: &str, key: &str) -> (r: Option<String>)
    ensures
        match r {
            Some(s) => forall|v: Seq<char>|
                plain_text(key@) && plain_text(v) && text@ == #[trigger] spec_one_field_object(
                    key@,
                    v,
                ) ==> s@ == v,
            None => forall|v: Seq<char>|
                plain_text(key@) && plain_text(v) ==> text@ != #[trigger] spec_one_field_object(
                    key@,
                    v,
                ),
        },
{
    let value: serde_json::Value = match serde_json::from_str(text) {
        Ok(v) => v,
        Err(_) => return None,
    };
    let field = match value.get(key) {
        Some(f) => f.as_str()?,
        None => return None,
    };
    Some(field.to_string())
}

/// The envelope's field names are plain and distinct, so they stand for
/// themselves inside the JSON text.
proof fn lemma_envelope_keys()
    ensures
        plain_text("public_key"@),
        plain_text("private_key"@),
        plain_text("signature"@),
        "public_key"@ != "private_key"@,
{
    reveal_strlit("public_key");
    reveal_strlit("private_key");
    reveal_strlit("signature");
    assert("public_key"@.len() != "private_key"@.len());
}

/// Emit the JSON envelope of a key pair: two base64 string fields, public
/// half first. The length bounds keep base64's output-size arithmetic in
/// range.
pub fn key_pair_to_json(key_pair: &KeyPair) -> (r: String)
    requires
        key_pair.public_key@.len() <= usize::MAX as int / 8,
        key_pair.private_key@.len() <= usize::MAX as int / 8,
    ensures
        r@ == spec_key_pair_text(key_pair.public_key@, key_pair.private_key@),
        plain_text(base64_of(key_pair.public_key@)),
        plain_text(base64_of(key_pair.private_key@)),
{
    let public_text = base64_encode(key_pair.public_key.as_slice());
    let private_text = base64_encode(key_pair.private_key.as_slice());
    let mut out = String::from_str("{\"");
    out.append("public_key");
    out.append("\":\"");
    out.append(public_text.as_str());
    out.append("\",\"");
    out.append("private_key");
    out.append("\":\"");
    out.append(private_text.as_str());
    out.append("\"}");
    out
}

/// Decode the JSON envelope of a key pair. Any text that `key_pair_to_json`
/// can produce decodes to the original byte sequences; text that is not such
/// an envelope, or whose fields are not base64, is rejected with the
/// matching `DecodeError`.
pub fn key_pair_from_json(json: &str) -> (r: Result<KeyPair, DecodeError>)
    ensures
        forall|pk: Seq<u8>, sk: Seq<u8>|
            plain_text(base64_of(pk)) && plain_text(base64_of(sk)) && json@
                == spec_key_pair_text(pk, sk) ==> (r matches Ok(kp) && kp.public_key@ == pk
                && kp.private_key@ == sk),
{
    proof {
        lemma_envelope_keys();
    }
    match json_two_string_fields(json, "public_key", "private_key") {
        None => Err(DecodeError::Envelope),
        Some(texts) => {
            let (public_text, private_text) = texts;
            match base64_decode(public_text.as_str()) {
                None => Err(DecodeError::Base64),
                Some(public_key) => match base64_decode(private_text.as_str()) {
                    None => Err(DecodeError::Base64),
                    Some(private_key) => Ok(KeyPair { public_key, private_key }),
                },
            }
        },
    }
}

/// Emit the JSON envelope of a tag: one base64 string field.
pub fn signature_to_json(signature: &[u8]) -> (r: String)
    requires
        signature@.len() <= usize::MAX as int / 8,
    ensures
        r@ == spec_signature_text(signature@),
        plain_text(base64_of(signature@)),
{
    let tag_text = base64_encode(signature);
    let mut out = String::from_str("{\"");
    out.append("signature");
    out.append("\":\"");
    out.append(tag_text.as_str());
    out.append("\"}");
    out
}

/// Decode the JSON envelope of a tag. Any text that `signature_to_json` can
/// produce decodes to the original bytes; other text is rejected with the
/// matching `DecodeError`.
pub fn signature_from_json(json: &str) -> (r: Result<Vec<u8>, DecodeError>)
    ensures
        forall|tag: Seq<u8>|
            plain_text(base64_of(tag)) && json@ == spec_signature_text(tag) ==> (r matches Ok(v)
                && v@ == tag),
{
    proof {
        lemma_envelope_keys();
    }
    match json_string_field(json, "signature") {
        None => Err(DecodeError::Envelope),
        Some(tag_text) => match base64_decode(tag_text.as_str()) {
            None => Err(DecodeError::Base64),
            Some(tag) => Ok(tag),
        },
    }
}

/// The base64 text of a tag (or of any byte buffer).
pub fn signature_to_base64(signature: &[u8]) -> (r: String)
    requires
        signature@.len() <= usize::MAX as int / 8,
    ensures
        r@ == base64_of(signature@),
{
    base64_encode(signature)
}

/// Decode base64 text back into tag bytes. The encoding of any byte
/// sequence decodes to exactly that sequence; text that is not base64 is
/// rejected.
pub fn signature_from_base64(base64_str: &str) -> (r: Result<Vec<u8>, DecodeError>)
    ensures
        forall|b: Seq<u8>|
            base64_str@ == #[trigger] base64_of(b) ==> (r matches Ok(v) && v@ == b),
{
    match base64_decode(base64_str) {
        Some(v) => Ok(v),
        None => Err(DecodeError::Base64),
    }
}

} // verus!
