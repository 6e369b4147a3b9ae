use curlmaster::classify::assemble_response;
use curlmaster::classify::classify_body;
use curlmaster::classify::classify_decoded;
use curlmaster::classify::extract_response_body;
use curlmaster::classify::hex_preview;
use curlmaster::models::ResponseBody;

fn ct(s: &str) -> Option<String> {
    Some(s.to_string())
}

#[test]
fn short_json_body_is_text() {
    let body = classify_body(&ct("application/json"), &b"{\"a\":1}".to_vec());
    match body {
        ResponseBody::Text { content } => assert_eq!(content, "{\"a\":1}"),
        other => panic!("unexpected variant: {:?}", other),
    }
}

#[test]
fn text_prefix_and_substring_matches_count_as_text() {
    for c in ["text/plain", "text/html", "application/xml", "application/javascript",
              "application/hal+json"] {
        let body = classify_body(&ct(c), &b"ok".to_vec());
        assert!(matches!(body, ResponseBody::Text { .. }), "content type {} not text", c);
    }
}

#[test]
fn case_sensitive_match_and_unknown_types_are_binary() {
    for c in ["application/JSON", "image/png", "application/octet-stream"] {
        let body = classify_body(&ct(c), &b"ab".to_vec());
        assert!(matches!(body, ResponseBody::Binary { .. }), "content type {} not binary", c);
    }
    let body = classify_body(&None, &b"ab".to_vec());
    assert!(matches!(body, ResponseBody::Binary { .. }));
}

#[test]
fn oversized_text_is_truncated_on_character_boundaries() {
    let text: String = "a".repeat(300000);
    let body = classify_decoded(text);
    match body {
        ResponseBody::Truncated { content, original_size } => {
            assert_eq!(original_size, 300000);
            assert_eq!(content.chars().count(), 262144);
        }
        other => panic!("unexpected variant: {:?}", other),
    }
}

#[test]
fn oversized_json_bytes_are_truncated_via_classification() {
    let bytes = vec![b'x'; 300000];
    let body = classify_body(&ct("application/json"), &bytes);
    match body {
        ResponseBody::Truncated { content, original_size } => {
            assert_eq!(original_size, 300000);
            assert_eq!(content.len(), 262144);
        }
        other => panic!("unexpected variant: {:?}", other),
    }
}

#[test]
fn multibyte_text_at_the_cap_keeps_whole_characters() {
    // 262145 two-byte characters: truncation counts characters, not bytes.
    let text: String = "é".repeat(262145);
    let body = classify_decoded(text);
    match body {
        ResponseBody::Truncated { content, original_size } => {
            assert_eq!(original_size, 262145);
            assert_eq!(content.chars().count(), 262144);
            assert!(content.chars().all(|c| c == 'é'));
        }
        other => panic!("unexpected variant: {:?}", other),
    }
}

#[test]
fn invalid_utf8_with_text_type_is_binary() {
    let bytes = vec![0xffu8, 0xfe, 0x41];
    let body = classify_body(&ct("text/plain"), &bytes);
    match body {
        ResponseBody::Binary { preview_hex } => assert_eq!(preview_hex, "fffe41"),
        other => panic!("unexpected variant: {:?}", other),
    }
}

#[test]
fn hex_preview_is_two_lowercase_digits_per_byte() {
    assert_eq!(hex_preview(&vec![0x00, 0xff, 0x10, 0xab]), "00ff10ab");
    assert_eq!(hex_preview(&Vec::new()), "");
}

#[test]
fn hex_preview_caps_at_256_source_bytes() {
    let bytes = vec![0x41u8; 300];
    let hex = hex_preview(&bytes);
    assert_eq!(hex.len(), 512);
    assert!(hex.chars().all(|c| c == '4' || c == '1'));
}

#[test]
fn extract_splits_body_for_history() {
    let (full, preview, kind) = extract_response_body(&ResponseBody::Text {
        content: "hello".to_string(),
    });
    assert_eq!(full.as_deref(), Some("hello"));
    assert_eq!(preview.as_deref(), Some("hello"));
    assert_eq!(kind, "text");

    let long: String = "b".repeat(2500);
    let (full, preview, kind) = extract_response_body(&ResponseBody::Truncated {
        content: long.clone(),
        original_size: 5000,
    });
    assert_eq!(full.as_deref(), Some(long.as_str()));
    assert_eq!(preview.unwrap().chars().count(), 1000);
    assert_eq!(kind, "truncated");

    let (full, preview, kind) = extract_response_body(&ResponseBody::Binary {
        preview_hex: "00ff".to_string(),
    });
    assert_eq!(full, None);
    assert_eq!(preview.as_deref(), Some("00ff"));
    assert_eq!(kind, "binary");
}

#[test]
fn assemble_preserves_headers_and_metadata() {
    let response = assemble_response(
        404,
        "Not Found".to_string(),
        vec![
            ("content-type".to_string(), "text/plain".to_string()),
            ("x-custom".to_string(), "v".to_string()),
        ],
        ct("text/plain"),
        None,
        b"missing".to_vec(),
        12,
    );
    assert_eq!(response.status, 404);
    assert_eq!(response.status_text, "Not Found");
    assert_eq!(response.headers.len(), 2);
    assert!(response.headers.iter().all(|h| h.enabled));
    assert_eq!(response.headers[1].key, "x-custom");
    assert_eq!(response.size_bytes, 7);
    assert_eq!(response.time_ms, 12);
    assert_eq!(response.content_type.as_deref(), Some("text/plain"));
    assert_eq!(response.content_encoding, None);
    match response.body {
        ResponseBody::Text { content } => assert_eq!(content, "missing"),
        other => panic!("unexpected variant: {:?}", other),
    }
}
