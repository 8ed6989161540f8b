//! The `x-api-key` request header.

use vstd::prelude::*;
use vstd::utf8::{encode_utf8, is_ascii_chars, is_ascii_chars_encode_utf8};

verus! {

/// The name of the header.
pub const X_API_KEY_HEADER_NAME: &'static str = "x-api-key";

/// An API key, as carried by the `x-api-key` header.
#[derive(Clone, Debug, PartialEq, Eq)]
pub struct XApiKey(pub String);

/// Bytes that a header value may be read as text from: visible ASCII and tab.
pub open spec fn is_visible_ascii(b: u8) -> bool {
    (32 <= b && b < 127) || b == 9
}

/// Bytes that a header value may hold: all but control characters, tab
/// excepted, and DEL.
pub open spec fn is_header_value_byte(b: u8) -> bool {
    (b >= 32 && b != 127) || b == 9
}

/// The characters that ASCII bytes stand for.
pub open spec fn ascii_text(bytes: Seq<u8>) -> Seq<char> {
    bytes.map_values(|b: u8| b as char)
}

/// The text of a header value, when all of it is visible ASCII.
pub open spec fn spec_key_text(value: Seq<u8>) -> Option<Seq<char>> {
    if forall|i: int| 0 <= i < value.len() ==> is_visible_ascii(#[trigger] value[i]) {
        Some(ascii_text(value))
    } else {
        None
    }
}

/// The header value that carries `text`: its UTF-8 bytes, when each of them
/// may stand in a header value.
pub open spec fn spec_header_value(text: Seq<char>) -> Option<Seq<u8>> {
    let bytes = encode_utf8(text);
    if forall|i: int| 0 <= i < bytes.len() ==> is_header_value_byte(#[trigger] bytes[i]) {
        Some(bytes)
    } else {
        None
    }
}

/// Why a request carries no readable API key.
#[derive(Clone, Copy, Debug, PartialEq, Eq, Structural)]
pub enum XApiKeyError {
    /// The request has no `x-api-key` header.
    MissingHeader,
    /// The header's value is not all visible ASCII.
    NotVisibleAscii,
}

/// The text does not fit in a header value.
#[derive(Clone, Copy, Debug, PartialEq, Eq, Structural)]
pub struct InvalidHeaderValue;

impl XApiKey {
    /// Reads the key from the value of the request's `x-api-key` header
    /// (`None` when there is none).
    pub fn from_header_value(value: Option<&[u8]>) -> (res: Result<XApiKey, XApiKeyError>)
        ensures
            match value {
                None => res == Err::<XApiKey, XApiKeyError>(XApiKeyError::MissingHeader),
                Some(bytes) => match spec_key_text(bytes@) {
                    Some(text) => res matches Ok(key) && key.0@ == text,
                    None => res == Err::<XApiKey, XApiKeyError>(XApiKeyError::NotVisibleAscii),
                },
            },
    {
        let bytes = match value {
            Some(b) => b,
            None => return Err(XApiKeyError::MissingHeader),
        };
        let n = bytes.len();
        let mut text = String::new();
        let mut i: usize = 0;
        while i < n
            invariant
                value == Some(bytes),
                n == bytes@.len(),
                i <= n,
                forall|j: int| 0 <= j < i ==> is_visible_ascii(#[trigger] bytes@[j]),
                text@ == ascii_text(bytes@.subrange(0, i as int)),
            decreases n - i,
        {
            let b = bytes[i];
            if !((32 <= b && b < 127) || b == 9) {
                assert(!is_visible_ascii(bytes@[i as int]));
                return Err(XApiKeyError::NotVisibleAscii);
            }
            crate::decimal::push_char(&mut text, b as char);
            assert(ascii_text(bytes@.subrange(0, i + 1)) =~= ascii_text(bytes@.subrange(0, i as int)).push(b as char));
            i = i + 1;
        }
        assert(bytes@.subrange(0, n as int) =~= bytes@);
        Ok(XApiKey(text))
    }

    /// The header value that carries the key.
    pub fn to_header_value(&self) -> (res: Result<Vec<u8>, InvalidHeaderValue>)
        ensures
            match spec_header_value(self.0@) {
                Some(bytes) => res matches Ok(v) && v@ == bytes,
                None => res == Err::<Vec<u8>, InvalidHeaderValue>(InvalidHeaderValue),
            },
    {
        let bytes = self.0.as_str().as_bytes_vec();
        let n = bytes.len();
        let mut i: usize = 0;
        while i < n
            invariant
                n == bytes@.len(),
                bytes@ == encode_utf8(self.0@),
                i <= n,
                forall|j: int| 0 <= j < i ==> is_header_value_byte(#[trigger] bytes@[j]),
            decreases n - i,
        {
            let b = bytes[i];
            if !((b >= 32 && b != 127) || b == 9) {
                return Err(InvalidHeaderValue);
            }
            i = i + 1;
        }
        Ok(bytes)
    }
}

/// Characters that a key may hold and still read back unchanged.
pub open spec fn is_visible_ascii_char(c: char) -> bool {
    (32 <= (c as u32) && (c as u32) < 127) || (c as u32) == 9
}

proof fn lemma_visible_char_is_ascii(c: char)
    requires
        is_visible_ascii_char(c),
    ensures
        '\0' <= c,
        c <= '\u{7f}',
{
    assert((c as u32) <= ('\u{7f}' as u32));
}

/// A key of visible ASCII characters (tab included) fits in a header value,
/// and that value reads back as the same key.
pub proof fn lemma_header_round_trip(text: Seq<char>)
    requires
        forall|i: int| 0 <= i < text.len() ==> is_visible_ascii_char(#[trigger] text[i]),
    ensures
        spec_header_value(text) == Some(encode_utf8(text)),
        spec_key_text(encode_utf8(text)) == Some(text),
{
    assert(is_ascii_chars(text)) by {
        assert forall|i: int| 0 <= i < text.len() implies '\0' <= #[trigger] text[i] <= '\u{7f}' by {
            lemma_visible_char_is_ascii(text[i]);
        }
    }
    is_ascii_chars_encode_utf8(text);
    let bytes = encode_utf8(text);
    assert forall|i: int| 0 <= i < bytes.len() implies is_visible_ascii(#[trigger] bytes[i]) by {
        assert(text[i] as u8 == bytes[i]);
        assert(is_visible_ascii_char(text[i]));
    }
    assert forall|i: int| 0 <= i < bytes.len() implies is_header_value_byte(#[trigger] bytes[i]) by {
        assert(is_visible_ascii(bytes[i]));
    }
    assert(ascii_text(bytes) =~= text) by {
        assert forall|i: int| 0 <= i < text.len() implies #[trigger] ascii_text(bytes)[i] == text[i] by {
            assert(text[i] as u8 == bytes[i]);
            assert(is_visible_ascii_char(text[i]));
        }
    }
}

} // verus!
