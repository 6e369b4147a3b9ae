use curlmaster::models::AuthConfig;
use curlmaster::models::HttpError;
use curlmaster::models::KeyValue;
use curlmaster::models::RequestBody;
use curlmaster::models::RequestConfig;
use curlmaster::wire::build_wire;
use curlmaster::wire::to_transport;
use curlmaster::wire::check_method;
use curlmaster::wire::WireBody;

fn kv(key: &str, value: &str, enabled: bool) -> KeyValue {
    KeyValue { key: key.to_string(), value: value.to_string(), enabled }
}

fn config_with(method: &str) -> RequestConfig {
    RequestConfig {
        method: method.to_string(),
        url: "http://example.test/get".to_string(),
        headers: vec![
            kv("X-A", "1", true),
            kv("X-B", "2", false),
            kv("X-C", "3", true),
        ],
        params: vec![kv("p", "on", true), kv("q", "off", false)],
        body: RequestBody::Empty,
        auth: None,
        timeout_ms: 5000,
        ignore_tls: false,
        follow_redirects: true,
    }
}

#[test]
fn only_enabled_headers_and_params_are_attached() {
    let w = build_wire(&config_with("GET")).unwrap();
    let names: Vec<&str> = w.headers.iter().map(|p| p.0.as_str()).collect();
    assert_eq!(names, vec!["X-A", "X-C"]);
    assert_eq!(w.params.len(), 1);
    assert_eq!(w.params[0], ("p".to_string(), "on".to_string()));
}

#[test]
fn all_disabled_entries_give_an_empty_wire_set() {
    let mut config = config_with("GET");
    config.headers = vec![kv("X-A", "1", false), kv("X-B", "2", false)];
    config.params = vec![kv("p", "1", false)];
    let w = build_wire(&config).unwrap();
    assert!(w.headers.is_empty());
    assert!(w.params.is_empty());
}

#[test]
fn invalid_method_fails_before_any_io() {
    let r = build_wire(&config_with("GE T"));
    match r {
        Err(HttpError::InvalidUrl { message }) => assert_eq!(message, "Invalid HTTP method"),
        other => panic!("unexpected result: {:?}", other),
    }
    assert!(build_wire(&config_with("")).is_err());
}

#[test]
fn unusual_but_valid_token_methods_are_accepted() {
    assert!(check_method("GET"));
    assert!(check_method("PATCH"));
    assert!(check_method("M-SEARCH"));
    assert!(check_method("custom!method"));
    assert!(!check_method(""));
    assert!(!check_method("GET/1"));
    assert!(!check_method("naïve"));
}

#[test]
fn auth_is_normalized_and_carried() {
    let mut config = config_with("GET");
    config.auth = Some(AuthConfig::Basic {
        username: "u".to_string(),
        password: "p".to_string(),
    });
    let w = build_wire(&config).unwrap();
    assert_eq!(
        w.auth,
        AuthConfig::Basic { username: "u".to_string(), password: "p".to_string() }
    );

    config.auth = None;
    let w2 = build_wire(&config).unwrap();
    assert_eq!(w2.auth, AuthConfig::NoAuth);

    config.auth = Some(AuthConfig::NoAuth);
    let w3 = build_wire(&config).unwrap();
    assert_eq!(w3.auth, AuthConfig::NoAuth);
}

#[test]
fn body_variants_map_to_their_encodings() {
    let mut config = config_with("POST");

    config.body = RequestBody::Raw {
        mime: "text/plain".to_string(),
        content: "x".to_string(),
    };
    match build_wire(&config).unwrap().body {
        WireBody::Raw { mime, content } => {
            assert_eq!(mime, "text/plain");
            assert_eq!(content, "x");
        }
        other => panic!("unexpected body: {:?}", variant_name(&other)),
    }

    config.body = RequestBody::Json { value: "{\"a\":1}".to_string() };
    match build_wire(&config).unwrap().body {
        WireBody::Json { text } => assert_eq!(text, "{\"a\":1}"),
        other => panic!("unexpected body: {:?}", variant_name(&other)),
    }

    config.body = RequestBody::FormUrlEncoded {
        fields: vec![kv("a", "1", true), kv("b", "2", false)],
    };
    match build_wire(&config).unwrap().body {
        WireBody::Form { fields } => {
            assert_eq!(fields, vec![("a".to_string(), "1".to_string())])
        }
        other => panic!("unexpected body: {:?}", variant_name(&other)),
    }

    config.body = RequestBody::Multipart {
        fields: vec![kv("a", "1", false), kv("b", "2", true)],
    };
    match build_wire(&config).unwrap().body {
        WireBody::Multipart { fields } => {
            assert_eq!(fields, vec![("b".to_string(), "2".to_string())])
        }
        other => panic!("unexpected body: {:?}", variant_name(&other)),
    }

    config.body = RequestBody::Empty;
    assert!(matches!(build_wire(&config).unwrap().body, WireBody::Empty));
}

#[test]
fn transport_request_carries_only_enabled_entries() {
    let pool = curlmaster::pool::HttpExecutor::new(10).expect("pool");
    let mut config = config_with("GET");
    config.auth = Some(AuthConfig::Bearer { token: "tok".to_string() });
    let wire = build_wire(&config).unwrap();
    let request = to_transport(pool.select_client(&config), &wire).build().expect("request");

    assert_eq!(request.method().as_str(), "GET");
    assert_eq!(request.url().as_str(), "http://example.test/get?p=on");
    assert_eq!(
        request.headers().get("X-A").and_then(|v| v.to_str().ok()),
        Some("1")
    );
    assert_eq!(
        request.headers().get("X-C").and_then(|v| v.to_str().ok()),
        Some("3")
    );
    assert!(request.headers().get("X-B").is_none());
    assert_eq!(
        request.headers().get("Authorization").and_then(|v| v.to_str().ok()),
        Some("Bearer tok")
    );
}

#[test]
fn transport_request_encodes_the_body_by_variant() {
    let pool = curlmaster::pool::HttpExecutor::new(10).expect("pool");
    let mut config = config_with("POST");
    config.headers = Vec::new();
    config.params = Vec::new();

    config.body = RequestBody::Raw {
        mime: "text/plain".to_string(),
        content: "x".to_string(),
    };
    let wire = build_wire(&config).unwrap();
    let request = to_transport(pool.select_client(&config), &wire).build().expect("request");
    assert_eq!(
        request.headers().get("Content-Type").and_then(|v| v.to_str().ok()),
        Some("text/plain")
    );
    assert_eq!(request.body().and_then(|b| b.as_bytes()), Some(b"x".as_slice()));

    config.body = RequestBody::FormUrlEncoded {
        fields: vec![kv("a", "1", true), kv("b", "2", false)],
    };
    let wire = build_wire(&config).unwrap();
    let request = to_transport(pool.select_client(&config), &wire).build().expect("request");
    assert_eq!(
        request.headers().get("Content-Type").and_then(|v| v.to_str().ok()),
        Some("application/x-www-form-urlencoded")
    );
    assert_eq!(request.body().and_then(|b| b.as_bytes()), Some(b"a=1".as_slice()));

    config.body = RequestBody::Json { value: "{\"a\":1}".to_string() };
    let wire = build_wire(&config).unwrap();
    let request = to_transport(pool.select_client(&config), &wire).build().expect("request");
    assert_eq!(
        request.headers().get("Content-Type").and_then(|v| v.to_str().ok()),
        Some("application/json")
    );
    assert_eq!(request.body().and_then(|b| b.as_bytes()), Some(b"{\"a\":1}".as_slice()));

    config.body = RequestBody::Multipart { fields: vec![kv("a", "1", true)] };
    let wire = build_wire(&config).unwrap();
    let request = to_transport(pool.select_client(&config), &wire).build().expect("request");
    let content_type = request
        .headers()
        .get("Content-Type")
        .and_then(|v| v.to_str().ok())
        .unwrap_or("");
    assert!(content_type.starts_with("multipart/form-data"));
}

#[test]
fn json_body_keeps_a_content_type_the_caller_set() {
    let pool = curlmaster::pool::HttpExecutor::new(10).expect("pool");
    let mut config = config_with("POST");
    config.params = Vec::new();
    config.headers = vec![kv("Content-Type", "application/hal+json", true)];
    config.body = RequestBody::Json { value: "{\"a\":1}".to_string() };
    let wire = build_wire(&config).unwrap();
    let request = to_transport(pool.select_client(&config), &wire).build().expect("request");
    let values: Vec<&str> = request
        .headers()
        .get_all("Content-Type")
        .iter()
        .filter_map(|v| v.to_str().ok())
        .collect();
    assert_eq!(values, vec!["application/hal+json"]);
    assert_eq!(request.body().and_then(|b| b.as_bytes()), Some(b"{\"a\":1}".as_slice()));
}

#[test]
fn malformed_header_values_poison_the_builder() {
    let pool = curlmaster::pool::HttpExecutor::new(10).expect("pool");
    let mut config = config_with("GET");
    config.headers = vec![kv("X-Bad", "line\nbreak", true)];
    let wire = build_wire(&config).unwrap();
    let built = to_transport(pool.select_client(&config), &wire).build();
    assert!(built.is_err());
}

fn variant_name(b: &WireBody) -> &'static str {
    match b {
        WireBody::Empty => "empty",
        WireBody::Raw { .. } => "raw",
        WireBody::Json { .. } => "json",
        WireBody::Form { .. } => "form",
        WireBody::Multipart { .. } => "multipart",
    }
}
