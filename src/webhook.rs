//! Composing webhook notifications and judging the answers.
use vstd::prelude::*;
use std::collections::HashMap;
use crate::probe::{is_success_status, success_status};
use crate::text::{has_prefix, same_text};

verus! {

/// A plain notification to a chat webhook.
#[derive(Debug, Clone)]
pub struct WebhookPayload {
    pub url: String,
    pub message: String,
    /// `discord`, `slack`, or anything else for a generic receiver.
    pub webhook_type: String,
}

/// A notification with optional sender name, extra headers and a body
/// that replaces the composed one.
#[derive(Debug, Clone)]
pub struct AdvancedWebhookPayload {
    pub url: String,
    pub message: String,
    pub webhook_type: String,
    pub username: Option<String>,
    pub headers: Option<HashMap<String, String>>,
    pub custom_body: Option<String>,
}

/// What a webhook receiver answered.
#[derive(Debug, Clone)]
pub struct WebhookResponse {
    pub success: bool,
    pub status_code: u16,
    pub response_text: String,
    /// Milliseconds from sending to the answer.
    pub response_time: u64,
}

/// The body of a webhook request.
#[derive(Debug, Clone)]
pub enum WebhookBody {
    /// A JSON object with these fields.
    Fields(Vec<(String, String)>),
    /// Text sent as it is.
    Raw(String),
}

/// The JSON field that carries the message for each kind of receiver.
pub open spec fn message_key_of(kind: Seq<char>) -> Seq<char> {
    if kind == "discord"@ {
        "content"@
    } else if kind == "slack"@ {
        "text"@
    } else {
        "message"@
    }
}

/// Receivers that accept a sender name.
pub open spec fn takes_username(kind: Seq<char>) -> bool {
    kind == "discord"@ || kind == "slack"@
}

pub open spec fn opt_text(o: Option<String>) -> Option<Seq<char>> {
    match o {
        Some(t) => Some(t@),
        None => None,
    }
}

pub open spec fn field_texts(v: Seq<(String, String)>) -> Seq<(Seq<char>, Seq<char>)> {
    v.map_values(|f: (String, String)| (f.0@, f.1@))
}

/// The fields of a composed body: the message under its key, then the
/// sender name where the receiver takes one and it is given.
pub open spec fn composed_fields(kind: Seq<char>, message: Seq<char>, username: Option<Seq<char>>) -> Seq<
    (Seq<char>, Seq<char>),
> {
    let first = seq![(message_key_of(kind), message)];
    match username {
        Some(u) => if takes_username(kind) {
            first.push(("username"@, u))
        } else {
            first
        },
        None => first,
    }
}

/// The JSON text that serde_json writes for an object with these string
/// fields.
pub uninterp spec fn json_object_text(fields: Seq<(Seq<char>, Seq<char>)>) -> Seq<char>;

#[verifier::external_type_specification]
#[verifier::external_body]
pub struct ExJsonError(serde_json::Error);

/// Relies on `serde_json::to_string` of a `serde_json::Map` holding the
/// fields as string values: the text is a function of the fields alone,
/// and it succeeds, since such a map has string keys and its values'
/// serialization cannot fail.
#[verifier::external_body]
fn encode_json_object(fields: &Vec<(String, String)>) -> (r: Result<String, serde_json::Error>)
    ensures
        r is Ok,
        r matches Ok(t) ==> t@ == json_object_text(field_texts(fields@)),
{
    let map: serde_json::Map<String, serde_json::Value> = fields
        .iter()
        .map(|(k, v)| (k.clone(), serde_json::Value::String(v.clone())))
        .collect();
    serde_json::to_string(&map)
}

/// The body text for `fields`.
fn encode_fields(fields: &Vec<(String, String)>) -> (r: String)
    ensures
        r@ == json_object_text(field_texts(fields@)),
{
    match encode_json_object(fields) {
        Ok(t) => t,
        Err(_) => String::new(),
    }
}

/// The JSON field that carries the message for a receiver kind.
pub fn message_key(kind: &str) -> (r: &'static str)
    ensures
        r@ == message_key_of(kind@),
{
    if same_text(kind, "discord") {
        "content"
    } else if same_text(kind, "slack") {
        "text"
    } else {
        "message"
    }
}

/// The fields of a plain notification's body.
pub fn webhook_fields(payload: &WebhookPayload) -> (r: Vec<(String, String)>)
    ensures
        field_texts(r@) == composed_fields(payload.webhook_type@, payload.message@, None),
{
    let mut r: Vec<(String, String)> = Vec::new();
    r.push((String::from_str(message_key(payload.webhook_type.as_str())), payload.message.clone()));
    assert(field_texts(r@) =~= composed_fields(payload.webhook_type@, payload.message@, None));
    r
}

/// The body of an advanced notification: the custom body when one is
/// given, else the composed fields.
pub fn advanced_webhook_body(payload: &AdvancedWebhookPayload) -> (r: WebhookBody)
    ensures
        match payload.custom_body {
            Some(b) => r matches WebhookBody::Raw(t) && t@ == b@,
            None => r matches WebhookBody::Fields(v) && field_texts(v@) == composed_fields(
                payload.webhook_type@,
                payload.message@,
                opt_text(payload.username),
            ),
        },
{
    match &payload.custom_body {
        Some(b) => WebhookBody::Raw(b.clone()),
        None => {
            let kind = payload.webhook_type.as_str();
            let mut v: Vec<(String, String)> = Vec::new();
            v.push((String::from_str(message_key(kind)), payload.message.clone()));
            let takes = same_text(kind, "discord") || same_text(kind, "slack");
            match &payload.username {
                Some(u) => {
                    if takes {
                        v.push((String::from_str("username"), u.clone()));
                    }
                },
                None => {},
            }
            assert(field_texts(v@) =~= composed_fields(
                payload.webhook_type@,
                payload.message@,
                opt_text(payload.username),
            ));
            WebhookBody::Fields(v)
        },
    }
}

/// The JSON body of a plain notification.
pub fn webhook_json(payload: &WebhookPayload) -> (r: String)
    ensures
        r@ == json_object_text(
            composed_fields(payload.webhook_type@, payload.message@, None),
        ),
{
    encode_fields(&webhook_fields(payload))
}

/// The body text of an advanced notification: the custom body as it is,
/// else the composed fields as JSON.
pub fn advanced_webhook_text(payload: &AdvancedWebhookPayload) -> (r: String)
    ensures
        match payload.custom_body {
            Some(b) => r@ == b@,
            None => r@ == json_object_text(
                composed_fields(payload.webhook_type@, payload.message@, opt_text(payload.username)),
            ),
        },
{
    match advanced_webhook_body(payload) {
        WebhookBody::Raw(b) => b,
        WebhookBody::Fields(v) => encode_fields(&v),
    }
}

/// The response record for an answer with `status_code`; success means a
/// 2xx code.
pub fn webhook_response(status_code: u16, response_text: String, response_time: u64) -> (r: WebhookResponse)
    ensures
        r.success == success_status(status_code),
        r.status_code == status_code,
        r.response_text == response_text,
        r.response_time == response_time,
{
    WebhookResponse {
        success: is_success_status(status_code),
        status_code,
        response_text,
        response_time,
    }
}

/// Whether a webhook URL names the http or https scheme.
pub fn webhook_url_scheme_ok(url: &str) -> (r: bool)
    ensures
        r == (url@.len() >= 7 && url@.subrange(0, 7) == "http://"@) || (url@.len() >= 8
            && url@.subrange(0, 8) == "https://"@),
{
    proof {
        reveal_strlit("http://");
        reveal_strlit("https://");
    }
    has_prefix(url, "http://") || has_prefix(url, "https://")
}

/// Whether the answer to a HEAD request shows the webhook reachable: a
/// 2xx code, or 405 from a receiver that does not take HEAD.
pub fn webhook_url_reachable(status_code: u16) -> (r: bool)
    ensures
        r == (success_status(status_code) || status_code == 405),
{
    is_success_status(status_code) || status_code == 405
}

} // verus!
