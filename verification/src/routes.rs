//! The decisions of the paste routes: which uploads are accepted, and the
//! reply that each outcome is answered with.

use vstd::prelude::*;
use vstd::utf8::{decode_utf8, decode_utf8_encode_utf8, valid_utf8};

use crate::paste::Paste;

verus! {

/// Sent when no live paste has the requested id.
pub const PASTE_NOT_FOUND: &'static str = "Paste not found.";

/// Sent when an upload is not UTF-8 text.
pub const NOT_UTF8: &'static str = "File content must be UTF-8 encoded. The uploaded file contains invalid or unsupported encoding.";

/// Sent when an upload reads as Base64.
pub const BASE64_REJECTED: &'static str = "File content appears to be Base64 encoded. Upload of Base64 encoded files are not allowed";

/// What a reply carries.
#[derive(Clone, Debug, PartialEq, Eq)]
pub enum ReplyBody {
    /// Raw bytes.
    Bytes(Vec<u8>),
    /// A text message.
    Text(String),
    /// A paste record, sent as JSON.
    Paste(Paste),
}

/// An HTTP reply: its status code and body.
#[derive(Clone, Debug, PartialEq, Eq)]
pub struct Reply {
    pub status: u16,
    pub body: ReplyBody,
}

/// `reply` has status `status` and the text `text` as its body.
pub open spec fn is_text_reply(reply: Reply, status: u16, text: Seq<char>) -> bool {
    &&& reply.status == status
    &&& reply.body matches ReplyBody::Text(t) && t@ == text
}

fn text_reply(status: u16, text: &str) -> (res: Reply)
    ensures
        is_text_reply(res, status, text@),
{
    Reply { status, body: ReplyBody::Text(String::from_str(text)) }
}

/// A server error, reported with `message`.
pub fn internal_error(message: String) -> (res: Reply)
    ensures
        res == (Reply { status: 500, body: ReplyBody::Text(message) }),
{
    Reply { status: 500, body: ReplyBody::Text(message) }
}

/// The answer to a request for a paste, given what the lookup gave: the
/// file's bytes (200), no live paste (404), or a failure with its message
/// (500).
pub fn get_paste_reply(outcome: Result<Option<Vec<u8>>, String>) -> (res: Reply)
    ensures
        match outcome {
            Ok(Some(data)) => res == Reply { status: 200, body: ReplyBody::Bytes(data) },
            Ok(None) => is_text_reply(res, 404, PASTE_NOT_FOUND@),
            Err(message) => res == Reply { status: 500, body: ReplyBody::Text(message) },
        },
{
    match outcome {
        Ok(Some(data)) => Reply { status: 200, body: ReplyBody::Bytes(data) },
        Ok(None) => text_reply(404, PASTE_NOT_FOUND),
        Err(message) => internal_error(message),
    }
}

/// The answer to an upload, given what storing it gave: the new paste's
/// record (200, as JSON) or a failure with its message (500).
pub fn create_paste_reply(outcome: Result<Paste, String>) -> (res: Reply)
    ensures
        match outcome {
            Ok(paste) => res == Reply { status: 200, body: ReplyBody::Paste(paste) },
            Err(message) => res == Reply { status: 500, body: ReplyBody::Text(message) },
        },
{
    match outcome {
        Ok(paste) => Reply { status: 200, body: ReplyBody::Paste(paste) },
        Err(message) => internal_error(message),
    }
}

/// The verdict on an upload, given its text (`None` when it is not UTF-8)
/// and whether that text decodes as Base64 in the standard and in the
/// URL-safe alphabet: the text when it is UTF-8 and decodes in neither,
/// else the 400 reply that says why not.
pub fn upload_verdict(text: Option<String>, standard_decodes: bool, url_safe_decodes: bool) -> (res:
    Result<String, Reply>)
    ensures
        match text {
            None => res matches Err(r) && is_text_reply(r, 400, NOT_UTF8@),
            Some(t) => if standard_decodes || url_safe_decodes {
                res matches Err(r) && is_text_reply(r, 400, BASE64_REJECTED@)
            } else {
                res == Ok::<String, Reply>(t)
            },
        },
{
    match text {
        None => Err(text_reply(400, NOT_UTF8)),
        Some(t) => if standard_decodes || url_safe_decodes {
            Err(text_reply(400, BASE64_REJECTED))
        } else {
            Ok(t)
        },
    }
}

/// std's `String::from_utf8`: the text that `bytes` encode, exactly when
/// they are valid UTF-8 (the error it returns otherwise is dropped).
#[verifier::external_body]
fn string_from_utf8(bytes: Vec<u8>) -> (res: Option<String>)
    ensures
        res is Some <==> valid_utf8(bytes@),
        res matches Some(s) ==> s@ == decode_utf8(bytes@),
{
    String::from_utf8(bytes).ok()
}

#[verifier::external_type_specification]
#[verifier::external_body]
pub struct ExDecodeError(base64::DecodeError);

/// The 6-bit value of a Base64 symbol, in the standard alphabet (`+`, `/`)
/// or the URL-safe one (`-`, `_`); `None` for any other byte.
pub open spec fn base64_symbol_value(b: u8, url_safe: bool) -> Option<int> {
    if 65 <= b && b <= 90 {
        Some(b - 65)
    } else if 97 <= b && b <= 122 {
        Some(b - 71)
    } else if 48 <= b && b <= 57 {
        Some(b + 4)
    } else if (url_safe && b == 45) || (!url_safe && b == 43) {
        Some(62)
    } else if (url_safe && b == 95) || (!url_safe && b == 47) {
        Some(63)
    } else {
        None
    }
}

/// Canonical padded Base64: groups of four symbols, the last of which may
/// end in `=` (its third symbol's two low bits clear) or `==` (its second
/// symbol's four low bits clear). The empty text is such a text.
pub open spec fn canonical_padded_base64(s: Seq<u8>, url_safe: bool) -> bool {
    let n = s.len() as int;
    &&& n % 4 == 0
    &&& forall|i: int| 0 <= i < n - 2 ==> (#[trigger] base64_symbol_value(s[i], url_safe)) is Some
    &&& n > 0 ==> {
        ||| base64_symbol_value(s[n - 2], url_safe) is Some && base64_symbol_value(s[n - 1], url_safe) is Some
        ||| base64_symbol_value(s[n - 2], url_safe) matches Some(v) && v % 4 == 0 && s[n - 1] == 61
        ||| s[n - 2] == 61 && s[n - 1] == 61 && (base64_symbol_value(s[n - 3], url_safe) matches Some(v)
            && v % 16 == 0)
    }
}

fn symbol_value(b: u8, url_safe: bool) -> (res: Option<u8>)
    ensures
        match base64_symbol_value(b, url_safe) {
            Some(v) => res == Some(v as u8),
            None => res is None,
        },
{
    if 65 <= b && b <= 90 {
        Some(b - 65)
    } else if 97 <= b && b <= 122 {
        Some(b - 71)
    } else if 48 <= b && b <= 57 {
        Some(b + 4)
    } else if (url_safe && b == 45) || (!url_safe && b == 43) {
        Some(62)
    } else if (url_safe && b == 95) || (!url_safe && b == 47) {
        Some(63)
    } else {
        None
    }
}

/// Whether `s` is canonical padded Base64 in the given alphabet.
pub fn is_canonical_padded_base64(s: &[u8], url_safe: bool) -> (res: bool)
    ensures
        res == canonical_padded_base64(s@, url_safe),
{
    let n = s.len();
    if n % 4 != 0 {
        return false;
    }
    if n == 0 {
        return true;
    }
    let mut i: usize = 0;
    while i < n - 2
        invariant
            n == s@.len(),
            n >= 4,
            i <= n - 2,
            forall|k: int| 0 <= k < i ==> (#[trigger] base64_symbol_value(s@[k], url_safe)) is Some,
        decreases n - 2 - i,
    {
        if symbol_value(s[i], url_safe).is_none() {
            return false;
        }
        i = i + 1;
    }
    let a = symbol_value(s[n - 3], url_safe);
    let b = symbol_value(s[n - 2], url_safe);
    let c = symbol_value(s[n - 1], url_safe);
    match (b, c) {
        (Some(_), Some(_)) => true,
        (Some(v), None) => v % 4 == 0 && s[n - 1] == 61,
        (None, _) => s[n - 2] == 61 && s[n - 1] == 61 && match a {
            Some(v) => v % 16 == 0,
            None => false,
        },
    }
}

/// What base64's `STANDARD` engine decodes `input` to, if anything.
pub uninterp spec fn base64_standard_decode(input: Seq<u8>) -> Option<Seq<u8>>;

/// What base64's `URL_SAFE` engine decodes `input` to, if anything.
pub uninterp spec fn base64_url_safe_decode(input: Seq<u8>) -> Option<Seq<u8>>;

/// base64's `Engine::decode` on the `STANDARD` engine (standard alphabet,
/// `PAD` config: canonical padding required, no trailing bits). Claimed: the
/// result is a function of the input bytes, named `base64_standard_decode`,
/// and canonical padded standard Base64 decodes (as its `decode_suffix`
/// shows). Which other inputs decode, and to what, is left to the crate.
#[verifier::external_body]
fn decode_base64_standard(input: &[u8]) -> (res: Result<Vec<u8>, base64::DecodeError>)
    ensures
        res is Ok <==> base64_standard_decode(input@) is Some,
        res matches Ok(v) ==> base64_standard_decode(input@) == Some(v@),
        canonical_padded_base64(input@, false) ==> res is Ok,
{
    base64::Engine::decode(&base64::engine::general_purpose::STANDARD, input)
}

/// base64's `Engine::decode` on the `URL_SAFE` engine (URL-safe alphabet,
/// `PAD` config). Claimed: the result is a function of the input bytes,
/// named `base64_url_safe_decode`, and canonical padded URL-safe Base64
/// decodes. Which other inputs decode, and to what, is left to the crate.
#[verifier::external_body]
fn decode_base64_url_safe(input: &[u8]) -> (res: Result<Vec<u8>, base64::DecodeError>)
    ensures
        res is Ok <==> base64_url_safe_decode(input@) is Some,
        res matches Ok(v) ==> base64_url_safe_decode(input@) == Some(v@),
        canonical_padded_base64(input@, true) ==> res is Ok,
{
    base64::Engine::decode(&base64::engine::general_purpose::URL_SAFE, input)
}

/// Whether an upload reads as Base64 in either alphabet.
pub open spec fn reads_as_base64(bytes: Seq<u8>) -> bool {
    base64_standard_decode(bytes) is Some || base64_url_safe_decode(bytes) is Some
}

/// Checks an uploaded file: it must be UTF-8 text that does not decode as
/// Base64 (standard or URL-safe alphabet). Gives the text, or the 400 reply
/// that says what is wrong with it.
pub fn check_upload(file_data: Vec<u8>) -> (res: Result<String, Reply>)
    ensures
        !valid_utf8(file_data@) ==> (res matches Err(r) && is_text_reply(r, 400, NOT_UTF8@)),
        valid_utf8(file_data@) && reads_as_base64(file_data@) ==> (res matches Err(r)
            && is_text_reply(r, 400, BASE64_REJECTED@)),
        valid_utf8(file_data@) && !reads_as_base64(file_data@) ==> (res matches Ok(t) && t@
            == decode_utf8(file_data@)),
        valid_utf8(file_data@) && (canonical_padded_base64(file_data@, false)
            || canonical_padded_base64(file_data@, true)) ==> (res matches Err(r)
            && is_text_reply(r, 400, BASE64_REJECTED@)),
{
    let ghost bytes = file_data@;
    let text = string_from_utf8(file_data);
    match text {
        None => upload_verdict(None, false, false),
        Some(t) => {
            let raw = t.as_str().as_bytes();
            proof {
                decode_utf8_encode_utf8(bytes);
            }
            assert(raw@ == bytes);
            // Canonical padded Base64 decodes in its engine; the engines
            // decide every other text.
            let standard_decodes = decode_base64_standard(raw).is_ok();
            let url_safe_decodes = decode_base64_url_safe(raw).is_ok();
            let standard = is_canonical_padded_base64(raw, false) || standard_decodes;
            let url_safe = is_canonical_padded_base64(raw, true) || url_safe_decodes;
            upload_verdict(Some(t), standard, url_safe)
        },
    }
}

} // verus!
