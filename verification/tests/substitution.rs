use curlmaster::models::AuthConfig;
use curlmaster::models::KeyValue;
use curlmaster::models::RequestBody;
use curlmaster::models::RequestConfig;
use curlmaster::subst::subst_json_all;
use curlmaster::subst::subst_text_all;
use curlmaster::subst::substitute_variables;

fn kv(key: &str, value: &str, enabled: bool) -> KeyValue {
    KeyValue { key: key.to_string(), value: value.to_string(), enabled }
}

fn pairs(list: &[(&str, &str)]) -> Vec<(String, String)> {
    list.iter().map(|(k, v)| (k.to_string(), v.to_string())).collect()
}

fn base_config() -> RequestConfig {
    RequestConfig {
        method: "GET".to_string(),
        url: "http://{{host}}/api".to_string(),
        headers: vec![
            kv("X-Token", "{{token}}", true),
            kv("X-Off-{{host}}", "{{token}}", false),
        ],
        params: vec![kv("q", "{{host}}", true)],
        body: RequestBody::Empty,
        auth: None,
        timeout_ms: 5000,
        ignore_tls: false,
        follow_redirects: true,
    }
}

#[test]
fn replaces_matching_tokens_everywhere() {
    let mut config = base_config();
    let vars = pairs(&[("host", "example.com"), ("token", "abc")]);
    substitute_variables(&mut config, &vars);
    assert_eq!(config.url, "http://example.com/api");
    assert_eq!(config.headers[0].value, "abc");
    assert_eq!(config.params[0].value, "example.com");
}

#[test]
fn disabled_entries_are_still_substituted() {
    let mut config = base_config();
    let vars = pairs(&[("host", "example.com"), ("token", "abc")]);
    substitute_variables(&mut config, &vars);
    assert_eq!(config.headers[1].key, "X-Off-example.com");
    assert_eq!(config.headers[1].value, "abc");
    assert!(!config.headers[1].enabled);
}

#[test]
fn unmatched_tokens_stay_verbatim() {
    let mut config = base_config();
    config.url = "http://{{missing}}/x".to_string();
    let vars = pairs(&[("host", "example.com")]);
    substitute_variables(&mut config, &vars);
    assert_eq!(config.url, "http://{{missing}}/x");
}

#[test]
fn unmatched_token_survives_next_to_replaced_ones() {
    let s = "{{a}}/{{missing}}/{{b}}".to_string();
    let vars = pairs(&[("a", "A"), ("b", "B")]);
    assert_eq!(subst_text_all(&s, &vars), "A/{{missing}}/B");
}

#[test]
fn multiple_occurrences_all_replaced() {
    let s = "{{x}}-{{x}}-{{x}}".to_string();
    let vars = pairs(&[("x", "1")]);
    assert_eq!(subst_text_all(&s, &vars), "1-1-1");
}

#[test]
fn substitution_is_not_reapplied_recursively() {
    // x's round runs first; y's round then produces a literal {{x}} that no
    // later round expands.
    let s = "{{y}}".to_string();
    let vars = pairs(&[("x", "1"), ("y", "{{x}}")]);
    assert_eq!(subst_text_all(&s, &vars), "{{x}}");
}

#[test]
fn raw_body_is_substituted() {
    let mut config = base_config();
    config.body = RequestBody::Raw {
        mime: "text/plain".to_string(),
        content: "hello {{host}}".to_string(),
    };
    let vars = pairs(&[("host", "example.com")]);
    substitute_variables(&mut config, &vars);
    match &config.body {
        RequestBody::Raw { mime, content } => {
            assert_eq!(mime, "text/plain");
            assert_eq!(content, "hello example.com");
        }
        other => panic!("unexpected body: {:?}", other),
    }
}

#[test]
fn json_body_is_substituted_and_reparsed() {
    let t = "{\"a\":\"{{x}}\"}".to_string();
    let vars = pairs(&[("x", "1")]);
    assert_eq!(subst_json_all(&t, &vars), "{\"a\":\"1\"}");
}

#[test]
fn json_rounds_reserialize_the_document() {
    // Each successful round keeps the re-serialized form of the parsed
    // document, so surrounding whitespace disappears with the first round.
    let t = "{ \"a\" : \"{{x}}\" }".to_string();
    let vars = pairs(&[("x", "1")]);
    assert_eq!(subst_json_all(&t, &vars), "{\"a\":\"1\"}");
}

#[test]
fn json_round_that_breaks_parsing_is_dropped() {
    // Substituting a lone double quote makes the document unparseable, so the
    // document stays in its last successfully parsed state.
    let t = "{\"k\":\"{{v}}\"}".to_string();
    let vars = pairs(&[("v", "\"")]);
    assert_eq!(subst_json_all(&t, &vars), "{\"k\":\"{{v}}\"}");
}

#[test]
fn form_fields_and_auth_are_not_substituted() {
    let mut config = base_config();
    config.body = RequestBody::FormUrlEncoded { fields: vec![kv("f", "{{host}}", true)] };
    config.auth = Some(AuthConfig::Bearer { token: "{{token}}".to_string() });
    let vars = pairs(&[("host", "example.com"), ("token", "abc")]);
    substitute_variables(&mut config, &vars);
    match &config.body {
        RequestBody::FormUrlEncoded { fields } => assert_eq!(fields[0].value, "{{host}}"),
        other => panic!("unexpected body: {:?}", other),
    }
    assert_eq!(config.auth, Some(AuthConfig::Bearer { token: "{{token}}".to_string() }));
}

#[test]
fn variables_apply_in_supplied_order() {
    let s = "{{a}}".to_string();
    let vars = pairs(&[("a", "{{b}}"), ("b", "2")]);
    // a's round first yields {{b}}, then b's round replaces it.
    assert_eq!(subst_text_all(&s, &vars), "2");
}
