use backend_supervisor::webhook::{
    advanced_webhook_body, advanced_webhook_text, message_key, webhook_json, webhook_fields, webhook_response, webhook_url_reachable,
    webhook_url_scheme_ok, AdvancedWebhookPayload, WebhookBody, WebhookPayload,
};

fn plain(kind: &str) -> WebhookPayload {
    WebhookPayload {
        url: "https://example.com/hook".to_string(),
        message: "hello".to_string(),
        webhook_type: kind.to_string(),
    }
}

fn advanced(kind: &str, username: Option<&str>, custom: Option<&str>) -> AdvancedWebhookPayload {
    AdvancedWebhookPayload {
        url: "https://example.com/hook".to_string(),
        message: "hello".to_string(),
        webhook_type: kind.to_string(),
        username: username.map(|u| u.to_string()),
        headers: None,
        custom_body: custom.map(|c| c.to_string()),
    }
}

fn pair(k: &str, v: &str) -> (String, String) {
    (k.to_string(), v.to_string())
}

#[test]
fn message_key_per_receiver() {
    assert_eq!(message_key("discord"), "content");
    assert_eq!(message_key("slack"), "text");
    assert_eq!(message_key("teams"), "message");
    assert_eq!(message_key(""), "message");
    assert_eq!(message_key("Discord"), "message");
}

#[test]
fn plain_webhook_fields() {
    assert_eq!(webhook_fields(&plain("discord")), vec![pair("content", "hello")]);
    assert_eq!(webhook_fields(&plain("slack")), vec![pair("text", "hello")]);
    assert_eq!(webhook_fields(&plain("other")), vec![pair("message", "hello")]);
}

#[test]
fn advanced_body_with_username() {
    match advanced_webhook_body(&advanced("discord", Some("bot"), None)) {
        WebhookBody::Fields(v) => assert_eq!(v, vec![pair("content", "hello"), pair("username", "bot")]),
        other => panic!("unexpected {:?}", other),
    }
    match advanced_webhook_body(&advanced("slack", Some("bot"), None)) {
        WebhookBody::Fields(v) => assert_eq!(v, vec![pair("text", "hello"), pair("username", "bot")]),
        other => panic!("unexpected {:?}", other),
    }
    match advanced_webhook_body(&advanced("generic", Some("bot"), None)) {
        WebhookBody::Fields(v) => assert_eq!(v, vec![pair("message", "hello")]),
        other => panic!("unexpected {:?}", other),
    }
    match advanced_webhook_body(&advanced("slack", None, None)) {
        WebhookBody::Fields(v) => assert_eq!(v, vec![pair("text", "hello")]),
        other => panic!("unexpected {:?}", other),
    }
}

#[test]
fn advanced_body_custom_wins() {
    match advanced_webhook_body(&advanced("discord", Some("bot"), Some("{\"x\":1}"))) {
        WebhookBody::Raw(b) => assert_eq!(b, "{\"x\":1}"),
        other => panic!("unexpected {:?}", other),
    }
}

#[test]
fn response_success_is_2xx() {
    let r = webhook_response(204, "ok".to_string(), 12);
    assert!(r.success);
    assert_eq!(r.status_code, 204);
    assert_eq!(r.response_text, "ok");
    assert_eq!(r.response_time, 12);
    assert!(!webhook_response(404, String::new(), 1).success);
    assert!(!webhook_response(199, String::new(), 1).success);
}

#[test]
fn url_scheme_check() {
    assert!(webhook_url_scheme_ok("https://httpbin.org/post"));
    assert!(webhook_url_scheme_ok("http://localhost"));
    assert!(!webhook_url_scheme_ok("not-a-url"));
    assert!(!webhook_url_scheme_ok("ftp://example.com"));
    assert!(!webhook_url_scheme_ok("http:/"));
    assert!(!webhook_url_scheme_ok(""));
}

#[test]
fn url_reachability_from_head_status() {
    assert!(webhook_url_reachable(200));
    assert!(webhook_url_reachable(405));
    assert!(!webhook_url_reachable(404));
    assert!(!webhook_url_reachable(301));
}

#[test]
fn plain_webhook_json_body() {
    assert_eq!(webhook_json(&plain("discord")), "{\"content\":\"hello\"}");
    assert_eq!(webhook_json(&plain("slack")), "{\"text\":\"hello\"}");
    assert_eq!(webhook_json(&plain("x")), "{\"message\":\"hello\"}");
    let mut quoted = plain("slack");
    quoted.message = "say \"hi\"".to_string();
    assert_eq!(webhook_json(&quoted), "{\"text\":\"say \\\"hi\\\"\"}");
}

#[test]
fn advanced_webhook_json_body() {
    assert_eq!(
        advanced_webhook_text(&advanced("discord", Some("bot"), None)),
        "{\"content\":\"hello\",\"username\":\"bot\"}"
    );
    assert_eq!(
        advanced_webhook_text(&advanced("generic", Some("bot"), None)),
        "{\"message\":\"hello\"}"
    );
    assert_eq!(
        advanced_webhook_text(&advanced("slack", None, Some("raw body"))),
        "raw body"
    );
}
