use apnrs::{
    assemble_request, authorization_value, host_of, resolve_url, ApnsPayload, Aps, DeliveryTarget,
    Environment, HeaderField, Method, Protocol, PushError,
};

fn target(environment: Environment, device_token: &str, topic: &str) -> DeliveryTarget {
    DeliveryTarget {
        device_token: device_token.to_string(),
        topic: topic.to_string(),
        environment,
    }
}

fn payload(flag: u8) -> ApnsPayload {
    ApnsPayload {
        aps: Aps {
            alert: "Hi".to_string(),
            content_available: flag,
            badge: Some(3),
            sound: None,
            category: None,
            thread_id: None,
        },
        custom_key: None,
    }
}

fn field(name: &str, value: &str) -> HeaderField {
    HeaderField { name: name.to_string(), value: value.to_string() }
}

#[test]
fn sandbox_resolves_to_the_sandbox_host() {
    let t = target(Environment::Sandbox, "abc123", "com.example.app");
    assert_eq!(resolve_url(&t), "https://api.sandbox.push.apple.com/3/device/abc123");
    assert_eq!(host_of(Environment::Sandbox), "api.sandbox.push.apple.com");
}

#[test]
fn production_resolves_to_the_production_host() {
    let t = target(Environment::Production, "abc123", "com.example.app");
    assert_eq!(resolve_url(&t), "https://api.push.apple.com/3/device/abc123");
    assert_eq!(host_of(Environment::Production), "api.push.apple.com");
}

#[test]
fn the_two_environments_never_share_an_address() {
    assert_ne!(host_of(Environment::Production), host_of(Environment::Sandbox));
    for device in ["", "abc123", "sandbox.", "/3/device/"] {
        let production = resolve_url(&target(Environment::Production, device, "t"));
        let sandbox = resolve_url(&target(Environment::Sandbox, device, "t"));
        assert_ne!(production, sandbox);
        assert!(production.starts_with("https://api.push.apple.com/3/device/"));
        assert!(sandbox.starts_with("https://api.sandbox.push.apple.com/3/device/"));
        assert!(production.ends_with(device));
        assert!(sandbox.ends_with(device));
    }
}

#[test]
fn the_authorization_value_presents_the_token_as_bearer() {
    assert_eq!(authorization_value("a.b.c"), "bearer a.b.c");
    assert_eq!(authorization_value(""), "bearer ");
}

#[test]
fn the_request_carries_the_three_headers_and_the_body() {
    let t = target(Environment::Sandbox, "abc123", "com.example.app");
    let request = assemble_request("a.b.c", &t, &payload(1)).unwrap();
    assert_eq!(request.method, Method::Post);
    assert_eq!(request.protocol, Protocol::Http2PriorKnowledge);
    assert_eq!(request.url, "https://api.sandbox.push.apple.com/3/device/abc123");
    assert_eq!(
        request.headers,
        vec![
            field("apns-topic", "com.example.app"),
            field("authorization", "bearer a.b.c"),
            field("content-type", "application/json"),
        ]
    );
    assert_eq!(request.body, "{\"aps\":{\"alert\":\"Hi\",\"content-available\":1,\"badge\":3}}");
}

#[test]
fn the_headers_are_headers_to_the_transport() {
    let t = target(Environment::Production, "abc123", "com.example.app");
    let request = assemble_request("a.b.c", &t, &payload(0)).unwrap();
    let mut map = reqwest::header::HeaderMap::new();
    for header in request.headers.iter() {
        let name = reqwest::header::HeaderName::from_bytes(header.name.as_bytes()).unwrap();
        let value = reqwest::header::HeaderValue::from_str(&header.value).unwrap();
        assert!(map.insert(name, value).is_none());
    }
    assert_eq!(map.len(), 3);
    assert_eq!(map.get("apns-topic").unwrap(), "com.example.app");
    assert_eq!(map.get(reqwest::header::AUTHORIZATION).unwrap(), "bearer a.b.c");
    assert_eq!(map.get(reqwest::header::CONTENT_TYPE).unwrap(), "application/json");
    assert!(reqwest::Url::parse(&request.url).is_ok());
}

#[test]
fn a_payload_that_cannot_be_encoded_ends_the_assembly() {
    let t = target(Environment::Sandbox, "abc123", "com.example.app");
    assert_eq!(assemble_request("a.b.c", &t, &payload(2)), Err(PushError::PayloadEncodingError));
}

#[test]
fn a_topic_that_cannot_be_a_header_ends_the_assembly() {
    for topic in ["com.example\n.app", "\r", "a\u{0}b", "\u{7f}", "x\u{1f}"] {
        let t = target(Environment::Sandbox, "abc123", topic);
        assert_eq!(assemble_request("a.b.c", &t, &payload(1)), Err(PushError::HeaderValueError));
    }
}

#[test]
fn a_token_that_cannot_be_a_header_ends_the_assembly() {
    let t = target(Environment::Sandbox, "abc123", "com.example.app");
    assert_eq!(assemble_request("a\nb", &t, &payload(1)), Err(PushError::HeaderValueError));
}

#[test]
fn the_payload_is_judged_before_the_headers() {
    let t = target(Environment::Sandbox, "abc123", "bad\ntopic");
    assert_eq!(assemble_request("a\nb", &t, &payload(9)), Err(PushError::PayloadEncodingError));
}

#[test]
fn a_topic_with_tabs_spaces_and_letters_beyond_ascii_is_taken() {
    for topic in ["", "a b", "a\tb", "~", "caf\u{e9}", "\u{80}", "\u{1f600}"] {
        let t = target(Environment::Sandbox, "abc123", topic);
        let request = assemble_request("tok", &t, &payload(1)).unwrap();
        assert_eq!(request.headers[0], field("apns-topic", topic));
    }
}

#[test]
fn a_topic_is_taken_exactly_where_the_transport_takes_it() {
    let mut code: u32 = 0;
    while code < 0x400 {
        if let Some(c) = char::from_u32(code) {
            let topic = format!("a{}b", c);
            let t = target(Environment::Sandbox, "abc123", &topic);
            let taken = assemble_request("tok", &t, &payload(1)).is_ok();
            assert_eq!(taken, reqwest::header::HeaderValue::from_str(&topic).is_ok());
            assert_eq!(taken, c == '\t' || (code >= 0x20 && code != 0x7f));
        }
        code += 1;
    }
}
