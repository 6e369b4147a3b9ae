//! Compute halves of the repository-sync client: transcoding file content
//! between the remote API's base64 wrapping and plain text.
//!
//! The network calls around these stay in the embedding application; every
//! decision about what the fetched or pushed content is happens here.

use vstd::prelude::*;

use crate::classify::utf8_to_string;
use crate::text::replace_all;
use crate::text::replaced;
use base64::Engine;
use vstd::string::StringSliceAdditionalSpecFns;

verus! {

/// What the standard padded base64 engine decodes a text to: `Some` of the
/// bytes when the text is valid base64, `None` otherwise.
pub uninterp spec fn b64_decoded(s: Seq<char>) -> Option<Seq<u8>>;

/// What the standard padded base64 engine encodes bytes to.
pub uninterp spec fn b64_encoded(b: Seq<u8>) -> Seq<char>;

/// Relies on base64's `Engine::decode` with the standard padded alphabet:
/// the result depends on the text alone.
#[verifier::external_body]
fn b64_decode(s: &str) -> (r: Option<Vec<u8>>)
    ensures
        r is Some <==> b64_decoded(s@) is Some,
        r is Some ==> r->0@ == b64_decoded(s@)->0,
{
    base64::engine::general_purpose::STANDARD.decode(s).ok()
}

/// Relies on base64's `Engine::encode` with the standard padded alphabet:
/// the result depends on the bytes alone.
#[verifier::external_body]
fn b64_encode(bytes: &[u8]) -> (r: String)
    ensures
        r@ == b64_encoded(bytes@),
{
    base64::engine::general_purpose::STANDARD.encode(bytes)
}

/// Fetched file content with the line breaks the API inserts removed.
pub open spec fn unwrapped_content(s: Seq<char>) -> Seq<char> {
    replaced(replaced(s, "\n"@, ""@), "\r"@, ""@)
}

/// Decodes a file fetched from the repository API: removes the line breaks
/// the API wraps the payload with, base64-decodes it, and reads the bytes as
/// UTF-8. `None` when the unwrapped text is not valid base64 or its bytes
/// are not valid UTF-8.
pub fn decode_github_content(content: &str) -> (r: Option<String>)
    ensures
        match b64_decoded(unwrapped_content(content@)) {
            Option::Some(bytes) => {
                if vstd::utf8::valid_utf8(bytes) {
                    r matches Some(t) && t@ == vstd::utf8::decode_utf8(bytes)
                } else {
                    r is None
                }
            },
            Option::None => r is None,
        },
{
    proof {
        reveal_strlit("\n");
        reveal_strlit("\r");
    }
    let no_lf = replace_all(content, "\n", "");
    let stripped = replace_all(no_lf.as_str(), "\r", "");
    match b64_decode(stripped.as_str()) {
        Option::Some(bytes) => utf8_to_string(&bytes),
        Option::None => Option::None,
    }
}

/// Encodes file content for a push to the repository API.
pub fn encode_github_content(content: &str) -> (r: String)
    ensures
        r@ == b64_encoded(content.spec_bytes()),
{
    b64_encode(content.as_bytes())
}

} // verus!
