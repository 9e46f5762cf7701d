//! The value of a response header, read as text.

use vstd::prelude::*;

verus! {

/// `http::header::HeaderValue`: the value of one header, as bytes. Opaque here.
#[verifier::external_type_specification]
#[verifier::external_body]
pub struct ExHeaderValue(http::header::HeaderValue);

/// The bytes that a header value holds.
pub uninterp spec fn header_bytes(value: http::header::HeaderValue) -> Seq<u8>;

/// A byte that may stand in a header value read as text: printable ASCII, a
/// space or a tab.
pub open spec fn is_visible_ascii(byte: u8) -> bool {
    32 <= byte < 127 || byte == 9
}

/// Whether every byte is visible ASCII.
pub open spec fn is_visible_text(bytes: Seq<u8>) -> bool {
    forall|i: int| 0 <= i < bytes.len() ==> is_visible_ascii(#[trigger] bytes[i])
}

/// ASCII bytes read as characters.
pub open spec fn ascii_text(bytes: Seq<u8>) -> Seq<char> {
    bytes.map_values(|byte: u8| byte as char)
}

/// Calls `HeaderValue::to_str`, which scans the value and refuses it if any
/// byte is not visible ASCII; otherwise it gives the same bytes as text. The
/// text is copied into a `String`.
#[verifier::external_body]
pub(crate) fn header_to_str(value: &http::header::HeaderValue) -> (r: Result<
    String,
    http::header::ToStrError,
>)
    ensures
        match r {
            Ok(text) => is_visible_text(header_bytes(*value)) && text@ == ascii_text(
                header_bytes(*value),
            ),
            Err(_) => !is_visible_text(header_bytes(*value)),
        },
{
    value.to_str().map(String::from)
}

} // verus!
