use curlmaster::github::decode_github_content;
use curlmaster::github::encode_github_content;
use curlmaster::models::Setting;
use curlmaster::sanitize::sanitize_github_inputs;
use curlmaster::sync::invite_url;
use curlmaster::sync::sync_config_of;
use curlmaster::sync::sync_workspace_url;

fn setting(key: &str, value: &str) -> Setting {
    Setting { key: key.to_string(), value: value.to_string() }
}

#[test]
fn fetched_content_is_unwrapped_and_decoded() {
    assert_eq!(
        decode_github_content("eyJhIjoxfQ==").as_deref(),
        Some("{\"a\":1}")
    );
    // The API wraps payloads in line breaks; they are removed before decoding.
    assert_eq!(
        decode_github_content("eyJh\nIjox\r\nfQ==").as_deref(),
        Some("{\"a\":1}")
    );
}

#[test]
fn invalid_base64_or_invalid_utf8_yields_nothing() {
    assert_eq!(decode_github_content("!!!!"), None);
    // "/w==" decodes to the single byte 0xff, which is not UTF-8.
    assert_eq!(decode_github_content("/w=="), None);
}

#[test]
fn encoding_round_trips_through_decoding() {
    let encoded = encode_github_content("{\"a\":1}");
    assert_eq!(encoded, "eyJhIjoxfQ==");
    assert_eq!(decode_github_content(&encoded).as_deref(), Some("{\"a\":1}"));
    assert_eq!(encode_github_content(""), "");
}

#[test]
fn github_inputs_are_sanitized() {
    let (repo, path, branch) = sanitize_github_inputs(
        " /owner/repo/ ".to_string(),
        " /data/sync.json".to_string(),
        "  ".to_string(),
    );
    assert_eq!(repo, "owner/repo");
    assert_eq!(path, "data/sync.json");
    assert_eq!(branch, "main");

    let (repo, path, branch) = sanitize_github_inputs(
        "owner/repo".to_string(),
        "file.json".to_string(),
        " dev ".to_string(),
    );
    assert_eq!(repo, "owner/repo");
    assert_eq!(path, "file.json");
    assert_eq!(branch, "dev");
}

#[test]
fn sync_is_configured_only_with_both_values_present_and_non_empty() {
    let url = setting("sync_server_url", "https://sync.example");
    let token = setting("sync_token", "SECRET-REDACTED");
    assert_eq!(
        sync_config_of(Some(url.clone()), Some(token.clone())),
        Some(("https://sync.example".to_string(), "SECRET-REDACTED".to_string()))
    );
    assert_eq!(sync_config_of(None, Some(token.clone())), None);
    assert_eq!(sync_config_of(Some(url.clone()), None), None);
    assert_eq!(
        sync_config_of(Some(setting("sync_server_url", "")), Some(token.clone())),
        None
    );
    assert_eq!(
        sync_config_of(Some(url), Some(setting("sync_token", ""))),
        None
    );
}

#[test]
fn endpoints_are_built_on_the_normalized_base() {
    assert_eq!(
        sync_workspace_url("https://sync.example/", "w1"),
        "https://sync.example/sync/workspaces/w1"
    );
    assert_eq!(
        sync_workspace_url("https://sync.example//", "w1"),
        "https://sync.example/sync/workspaces/w1"
    );
    assert_eq!(
        invite_url("https://sync.example", "w1"),
        "https://sync.example/workspaces/w1/invite"
    );
}
