//! Response-body classification: decides text vs. binary from the
//! Content-Type header, truncates oversized text on character boundaries, and
//! renders a bounded lowercase-hex preview for binary content.
//!
//! Classification is pure and total: every (content-type, byte-sequence) pair
//! yields exactly one `ResponseBody` variant, never an error.

use vstd::prelude::*;

use crate::models::HttpResponse;
use crate::models::KeyValue;
use crate::models::ResponseBody;
use crate::text::contains_seq;
use crate::text::find_sub;
use crate::text::has_prefix;
use crate::text::starts_with_seq;
use crate::text::to_chars;

verus! {

/// Character cap for text bodies; longer text is truncated to this many
/// characters.
pub const RESPONSE_PREVIEW_LIMIT: usize = 262144;

/// Byte cap for the hex preview of binary bodies.
pub const BINARY_PREVIEW_BYTES: usize = 256;

/// Character cap for the stored history preview of a text body.
pub const HISTORY_PREVIEW_CHARS: usize = 1000;

/// A content type is textual when it starts with `text/` or mentions `json`,
/// `xml` or `javascript` (case-sensitive substring match).
pub open spec fn is_text_content_type(ct: Option<String>) -> bool {
    &&& ct is Some
    &&& {
        ||| starts_with_seq(ct->0@, "text/"@)
        ||| contains_seq(ct->0@, "json"@)
        ||| contains_seq(ct->0@, "xml"@)
        ||| contains_seq(ct->0@, "javascript"@)
    }
}

/// The lowercase hexadecimal digit for a value below 16.
pub open spec fn hex_digit(n: u8) -> char
    recommends
        n < 16,
{
    if n < 10 {
        ((48 + n) as u8) as char
    } else {
        ((87 + n) as u8) as char
    }
}

/// Two lowercase hex digits for every byte, in order.
pub open spec fn hex_of(bytes: Seq<u8>) -> Seq<char>
    decreases bytes.len(),
{
    if bytes.len() == 0 {
        Seq::<char>::empty()
    } else {
        seq![hex_digit(bytes[0] / 16), hex_digit(bytes[0] % 16)] + hex_of(bytes.skip(1))
    }
}

/// The bytes shown by a binary preview: at most the first
/// `BINARY_PREVIEW_BYTES` bytes.
pub open spec fn preview_bytes(bytes: Seq<u8>) -> Seq<u8> {
    if bytes.len() <= BINARY_PREVIEW_BYTES {
        bytes
    } else {
        bytes.take(BINARY_PREVIEW_BYTES as int)
    }
}

/// How a classified body relates to the response's content type and bytes:
/// textual and UTF-8-decodable bytes give `Text`, or `Truncated` past the
/// character cap; everything else gives `Binary` with a bounded hex preview.
pub open spec fn classified(ct: Option<String>, bytes: Seq<u8>, body: ResponseBody) -> bool {
    if is_text_content_type(ct) && vstd::utf8::valid_utf8(bytes) {
        let t = vstd::utf8::decode_utf8(bytes);
        if t.len() <= RESPONSE_PREVIEW_LIMIT {
            &&& body matches ResponseBody::Text { content }
            &&& content@ == t
        } else {
            &&& body matches ResponseBody::Truncated { content, original_size }
            &&& content@ == t.take(RESPONSE_PREVIEW_LIMIT as int)
            &&& original_size == t.len()
        }
    } else {
        &&& body matches ResponseBody::Binary { preview_hex }
        &&& preview_hex@ == hex_of(preview_bytes(bytes))
    }
}

/// Classification is total and exclusive: for every content type and byte
/// sequence, a classified body is exactly one of `Text`, `Truncated` or
/// `Binary`, and which one is determined by the inputs alone.
pub proof fn lemma_classification_total(ct: Option<String>, bytes: Seq<u8>, body: ResponseBody)
    requires
        classified(ct, bytes, body),
    ensures
        (body is Text || body is Truncated) <==> (is_text_content_type(ct)
            && vstd::utf8::valid_utf8(bytes)),
        body is Text ==> !(body is Truncated) && !(body is Binary),
        body is Truncated ==> !(body is Text) && !(body is Binary),
        body is Binary ==> !(body is Text) && !(body is Truncated),
        body is Truncated <==> (is_text_content_type(ct) && vstd::utf8::valid_utf8(bytes)
            && vstd::utf8::decode_utf8(bytes).len() > RESPONSE_PREVIEW_LIMIT),
{
}

/// Hex rendering distributes over concatenation.
proof fn lemma_hex_of_concat(a: Seq<u8>, b: Seq<u8>)
    ensures
        hex_of(a + b) == hex_of(a) + hex_of(b),
    decreases a.len(),
{
    if a.len() == 0 {
        assert(a + b =~= b);
        assert(hex_of(a) + hex_of(b) =~= hex_of(b));
    } else {
        assert((a + b).skip(1) =~= a.skip(1) + b);
        lemma_hex_of_concat(a.skip(1), b);
        assert((a + b)[0] == a[0]);
        assert(hex_of(a) + hex_of(b) =~= seq![
            hex_digit(a[0] / 16),
            hex_digit(a[0] % 16),
        ] + (hex_of(a.skip(1)) + hex_of(b)));
    }
}

/// The lowercase hex digit of a value below 16.
fn hex_digit_char(n: u8) -> (c: char)
    requires
        n < 16,
    ensures
        c == hex_digit(n),
{
    if n < 10 {
        (48 + n) as char
    } else {
        (87 + n) as char
    }
}

/// Renders at most the first `BINARY_PREVIEW_BYTES` bytes as lowercase hex,
/// two digits per byte.
pub fn hex_preview(bytes: &Vec<u8>) -> (r: String)
    ensures
        r@ == hex_of(preview_bytes(bytes@)),
{
    let n: usize = if bytes.len() <= BINARY_PREVIEW_BYTES {
        bytes.len()
    } else {
        BINARY_PREVIEW_BYTES
    };
    proof {
        assert(preview_bytes(bytes@) =~= bytes@.take(n as int));
    }
    let mut out: Vec<char> = Vec::new();
    let mut i: usize = 0;
    while i < n
        invariant
            n <= bytes@.len(),
            i <= n,
            out@ == hex_of(bytes@.take(i as int)),
        decreases n - i,
    {
        let b = bytes[i];
        out.push(hex_digit_char(b / 16));
        out.push(hex_digit_char(b % 16));
        proof {
            assert(bytes@.take(i + 1 as int) =~= bytes@.take(i as int) + seq![bytes@[i as int]]);
            lemma_hex_of_concat(bytes@.take(i as int), seq![bytes@[i as int]]);
            assert(seq![bytes@[i as int]].skip(1) =~= Seq::<u8>::empty());
            assert(hex_of(Seq::<u8>::empty()) =~= Seq::<char>::empty());
            assert(seq![bytes@[i as int]].len() == 1);
            assert(hex_of(seq![bytes@[i as int]]) =~= seq![
                hex_digit(bytes@[i as int] / 16),
                hex_digit(bytes@[i as int] % 16),
            ]);
        }
        i = i + 1;
    }
    crate::text::from_chars(&out)
}

/// Whether the given content type counts as textual.
pub fn is_text_media_type(ct: &Option<String>) -> (r: bool)
    ensures
        r == is_text_content_type(*ct),
{
    match ct {
        Option::Some(s) => {
            let cs = to_chars(s.as_str());
            let text_prefix = to_chars("text/");
            let json_lit = to_chars("json");
            let xml_lit = to_chars("xml");
            let js_lit = to_chars("javascript");
            has_prefix(&cs, &text_prefix) || find_sub(&cs, &json_lit) || find_sub(&cs, &xml_lit)
                || find_sub(&cs, &js_lit)
        },
        Option::None => false,
    }
}

/// Relies on `String::from_utf8`: succeeds exactly on valid UTF-8 and decodes
/// it to the corresponding characters.
#[verifier::external_body]
pub(crate) fn utf8_to_string(bytes: &Vec<u8>) -> (r: Option<String>)
    ensures
        r is Some <==> vstd::utf8::valid_utf8(bytes@),
        r is Some ==> r->0@ == vstd::utf8::decode_utf8(bytes@),
{
    match String::from_utf8(bytes.clone()) {
        Ok(s) => Some(s),
        Err(_) => None,
    }
}

/// Wraps decoded text: verbatim up to the character cap, truncated on a
/// character boundary past it, with the original character count recorded.
pub fn classify_decoded(text: String) -> (r: ResponseBody)
    ensures
        text@.len() <= RESPONSE_PREVIEW_LIMIT ==> (r matches ResponseBody::Text { content }
            && content@ == text@),
        text@.len() > RESPONSE_PREVIEW_LIMIT ==> (r matches ResponseBody::Truncated {
            content,
            original_size,
        } && content@ == text@.take(RESPONSE_PREVIEW_LIMIT as int) && original_size == text@.len()),
{
    let n: usize = text.as_str().unicode_len();
    if n <= RESPONSE_PREVIEW_LIMIT {
        ResponseBody::Text { content: text }
    } else {
        let prefix = text.as_str().substring_char(0, RESPONSE_PREVIEW_LIMIT).to_owned();
        proof {
            assert(text@.subrange(0, RESPONSE_PREVIEW_LIMIT as int) =~= text@.take(
                RESPONSE_PREVIEW_LIMIT as int,
            ));
        }
        ResponseBody::Truncated { content: prefix, original_size: n }
    }
}

/// Classifies a response body from its content type and raw bytes: exactly
/// one of `Text`, `Truncated` or `Binary`, as the classification model says.
pub fn classify_body(content_type: &Option<String>, bytes: &Vec<u8>) -> (r: ResponseBody)
    ensures
        classified(*content_type, bytes@, r),
{
    if is_text_media_type(content_type) {
        match utf8_to_string(bytes) {
            Option::Some(text) => classify_decoded(text),
            Option::None => ResponseBody::Binary { preview_hex: hex_preview(bytes) },
        }
    } else {
        ResponseBody::Binary { preview_hex: hex_preview(bytes) }
    }
}

/// The characters kept as the stored history preview of a text body.
pub open spec fn history_preview(s: Seq<char>) -> Seq<char> {
    if s.len() <= HISTORY_PREVIEW_CHARS {
        s
    } else {
        s.take(HISTORY_PREVIEW_CHARS as int)
    }
}

/// Takes at most the first `HISTORY_PREVIEW_CHARS` characters.
fn preview_chars(s: &String) -> (r: String)
    ensures
        r@ == history_preview(s@),
{
    let n: usize = s.as_str().unicode_len();
    if n <= HISTORY_PREVIEW_CHARS {
        s.clone()
    } else {
        let p = s.as_str().substring_char(0, HISTORY_PREVIEW_CHARS).to_owned();
        proof {
            assert(s@.subrange(0, HISTORY_PREVIEW_CHARS as int) =~= s@.take(
                HISTORY_PREVIEW_CHARS as int,
            ));
        }
        p
    }
}

/// Splits a classified body into the full stored text, a bounded preview and
/// a kind label, as the history store expects them.
pub fn extract_response_body(body: &ResponseBody) -> (r: (Option<String>, Option<String>, &'static
str))
    ensures
        body matches ResponseBody::Text { content } ==> (r.0 matches Some(full) && full@
            == content@) && (r.1 matches Some(p) && p@ == history_preview(content@)) && r.2@
            == "text"@,
        body matches ResponseBody::Binary { preview_hex } ==> r.0 is None && (r.1 matches Some(p)
            && p@ == preview_hex@) && r.2@ == "binary"@,
        body matches ResponseBody::Truncated { content, original_size } ==> (r.0 matches Some(full)
            && full@ == content@) && (r.1 matches Some(p) && p@ == history_preview(content@))
            && r.2@ == "truncated"@,
{
    match body {
        ResponseBody::Text { content } => (
            Option::Some(content.clone()),
            Option::Some(preview_chars(content)),
            "text",
        ),
        ResponseBody::Binary { preview_hex } => (
            Option::None,
            Option::Some(preview_hex.clone()),
            "binary",
        ),
        ResponseBody::Truncated { content, original_size: _ } => (
            Option::Some(content.clone()),
            Option::Some(preview_chars(content)),
            "truncated",
        ),
    }
}

/// Builds the classified response from the plain values read off the wire:
/// status line, headers (all preserved, marked enabled), classified body,
/// byte size and elapsed time.
pub fn assemble_response(
    status: u16,
    status_text: String,
    raw_headers: Vec<(String, String)>,
    content_type: Option<String>,
    content_encoding: Option<String>,
    bytes: Vec<u8>,
    time_ms: u128,
) -> (r: HttpResponse)
    ensures
        r.status == status,
        r.status_text == status_text,
        r.headers@.len() == raw_headers@.len(),
        forall|i: int|
            0 <= i < raw_headers@.len() ==> {
                &&& (#[trigger] r.headers@[i]).key == raw_headers@[i].0
                &&& r.headers@[i].value == raw_headers@[i].1
                &&& r.headers@[i].enabled == true
            },
        classified(content_type, bytes@, r.body),
        r.size_bytes == bytes@.len(),
        r.time_ms == time_ms,
        r.content_type == content_type,
        r.content_encoding == content_encoding,
{
    let mut headers: Vec<KeyValue> = Vec::new();
    let mut i: usize = 0;
    while i < raw_headers.len()
        invariant
            i <= raw_headers@.len(),
            headers@.len() == i,
            forall|j: int|
                0 <= j < i ==> {
                    &&& (#[trigger] headers@[j]).key == raw_headers@[j].0
                    &&& headers@[j].value == raw_headers@[j].1
                    &&& headers@[j].enabled == true
                },
        decreases raw_headers@.len() - i,
    {
        headers.push(
            KeyValue {
                key: raw_headers[i].0.clone(),
                value: raw_headers[i].1.clone(),
                enabled: true,
            },
        );
        i = i + 1;
    }
    let body = classify_body(&content_type, &bytes);
    let size_bytes = bytes.len();
    HttpResponse {
        status,
        status_text,
        headers,
        body,
        size_bytes,
        time_ms,
        content_type,
        content_encoding,
    }
}

} // verus!
