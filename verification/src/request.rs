//! The request that carries one notification to the gateway.

use crate::error::PushError;
use crate::payload::{encode, ApnsPayload};
use crate::token::token_text;
use vstd::prelude::*;
use vstd::string::StringExecFns;

verus! {

/// Which of the gateway's two services a notification goes to.
#[derive(Debug, Clone, Copy, PartialEq, Eq, Structural)]
pub enum Environment {
    Production,
    Sandbox,
}

/// Where a notification goes: the device, the app, and the service.
#[derive(Debug, Clone, PartialEq, Eq)]
pub struct DeliveryTarget {
    /// The token that names one installation of the app on one device.
    pub device_token: String,
    /// The topic: the app's bundle identifier.
    pub topic: String,
    /// The service to address.
    pub environment: Environment,
}

/// One header of a request.
#[derive(Debug, Clone, PartialEq, Eq)]
pub struct HeaderField {
    pub name: String,
    pub value: String,
}

/// The method of a request. The gateway takes notifications by POST alone.
#[derive(Debug, Clone, Copy, PartialEq, Eq, Structural)]
pub enum Method {
    Post,
}

/// How the transport speaks to the gateway: HTTP/2 from the first byte on, with
/// no upgrade from HTTP/1.1 and no way back to it.
#[derive(Debug, Clone, Copy, PartialEq, Eq, Structural)]
pub enum Protocol {
    Http2PriorKnowledge,
}

/// A request that is ready to be sent: how, where to, with which headers, and
/// the body.
#[derive(Debug, Clone, PartialEq, Eq)]
pub struct PushRequest {
    pub method: Method,
    pub protocol: Protocol,
    pub url: String,
    pub headers: Vec<HeaderField>,
    pub body: String,
}

/// The host of each service.
pub open spec fn gateway_host(environment: Environment) -> Seq<char> {
    match environment {
        Environment::Production => "api.push.apple.com"@,
        Environment::Sandbox => "api.sandbox.push.apple.com"@,
    }
}

/// The address of a device at a service.
pub open spec fn endpoint_url(environment: Environment, device_token: Seq<char>) -> Seq<char> {
    "https://"@ + gateway_host(environment) + "/3/device/"@ + device_token
}

/// The value of the authorization header for a token.
pub open spec fn bearer(token: Seq<char>) -> Seq<char> {
    "bearer "@ + token
}

/// A character that may stand in a header's value: the tab, and everything from
/// the space on but the delete character.
pub open spec fn header_char_ok(c: char) -> bool {
    c == '\t' || (c as u32 >= 0x20 && c as u32 != 0x7f)
}

/// A text that may stand as a header's value.
pub open spec fn header_value_ok(text: Seq<char>) -> bool {
    forall|i: int| 0 <= i < text.len() ==> header_char_ok(#[trigger] text[i])
}

/// The names and values of the three headers of a request, in order.
pub open spec fn request_headers(topic: Seq<char>, token: Seq<char>) -> Seq<
    (Seq<char>, Seq<char>),
> {
    seq![
        ("apns-topic"@, topic),
        ("authorization"@, bearer(token)),
        ("content-type"@, "application/json"@),
    ]
}

impl PushRequest {
    /// The headers as pairs of texts.
    pub open spec fn header_pairs(&self) -> Seq<(Seq<char>, Seq<char>)> {
        Seq::new(self.headers@.len(), |i: int| (self.headers@[i].name@, self.headers@[i].value@))
    }
}

/// What `assemble_request` returns for a token, a target and a payload.
pub open spec fn assembled(
    r: Result<PushRequest, PushError>,
    token: Seq<char>,
    target: &DeliveryTarget,
    payload: &ApnsPayload,
) -> bool {
    if !payload.well_formed() {
        r == Err::<PushRequest, PushError>(PushError::PayloadEncodingError)
    } else if !header_value_ok(target.topic@) || !header_value_ok(bearer(token)) {
        r == Err::<PushRequest, PushError>(PushError::HeaderValueError)
    } else {
        &&& r matches Ok(request)
        &&& request.method == Method::Post
        &&& request.protocol == Protocol::Http2PriorKnowledge
        &&& request.url@ == endpoint_url(target.environment, target.device_token@)
        &&& request.header_pairs() == request_headers(target.topic@, token)
        &&& request.body@ == payload.wire_text()
    }
}

/// Calls `reqwest::header::HeaderValue::from_str` and says whether it took the
/// text. It refuses a text in which some byte is below 32 and not the tab, or
/// is 127; the bytes of a character beyond ASCII are all above 127, so this is
/// a condition on each character.
#[verifier::external_body]
fn header_value_accepted(text: &str) -> (ok: bool)
    ensures
        ok == header_value_ok(text@),
{
    reqwest::header::HeaderValue::from_str(text).is_ok()
}

/// The host of a service.
pub fn host_of(environment: Environment) -> (host: &'static str)
    ensures
        host@ == gateway_host(environment),
{
    match environment {
        Environment::Production => "api.push.apple.com",
        Environment::Sandbox => "api.sandbox.push.apple.com",
    }
}

/// The address to which the notification for a target is posted.
pub fn resolve_url(target: &DeliveryTarget) -> (url: String)
    ensures
        url@ == endpoint_url(target.environment, target.device_token@),
{
    let mut url = String::from_str("https://");
    url.append(host_of(target.environment));
    url.append("/3/device/");
    url.append(target.device_token.as_str());
    url
}

/// The value of the authorization header that presents `token`.
pub fn authorization_value(token: &str) -> (value: String)
    ensures
        value@ == bearer(token@),
{
    let mut value = String::from_str("bearer ");
    value.append(token);
    value
}

/// Puts together the request that carries `payload` to `target` under `token`.
pub fn assemble_request(token: &str, target: &DeliveryTarget, payload: &ApnsPayload) -> (r: Result<
    PushRequest,
    PushError,
>)
    ensures
        assembled(r, token@, target, payload),
{
    let url = resolve_url(target);
    let body = match encode(payload) {
        Ok(body) => body,
        Err(e) => {
            return Err(e);
        },
    };
    let authorization = authorization_value(token);
    if !header_value_accepted(target.topic.as_str()) || !header_value_accepted(
        authorization.as_str(),
    ) {
        return Err(PushError::HeaderValueError);
    }
    let mut headers: Vec<HeaderField> = Vec::new();
    headers.push(
        HeaderField { name: String::from_str("apns-topic"), value: target.topic.clone() },
    );
    headers.push(HeaderField { name: String::from_str("authorization"), value: authorization });
    headers.push(
        HeaderField {
            name: String::from_str("content-type"),
            value: String::from_str("application/json"),
        },
    );
    let request = PushRequest {
        method: Method::Post,
        protocol: Protocol::Http2PriorKnowledge,
        url,
        headers,
        body,
    };
    assert(request.header_pairs() == request_headers(target.topic@, token@));
    Ok(request)
}

/// A token can always stand in the authorization header: none of its
/// characters, and none of the word before it, is refused there.
pub proof fn lemma_token_is_header_text(token: Seq<char>)
    requires
        token_text(token),
    ensures
        header_value_ok(bearer(token)),
{
    reveal_strlit("bearer ");
    let value = bearer(token);
    assert forall|i: int| 0 <= i < value.len() implies header_char_ok(#[trigger] value[i]) by {
        if i >= 7 {
            assert(value[i] == token[i - 7]);
        }
    }
}

/// Every environment resolves to one of the two hosts, production to the
/// production host and sandbox to the sandbox host, and the two are apart: an
/// address tells for which environment and for which device it was resolved.
pub proof fn lemma_environment_selection(
    a: Environment,
    device_a: Seq<char>,
    b: Environment,
    device_b: Seq<char>,
)
    ensures
        gateway_host(Environment::Production) == "api.push.apple.com"@,
        gateway_host(Environment::Sandbox) == "api.sandbox.push.apple.com"@,
        a == Environment::Production || a == Environment::Sandbox,
        gateway_host(Environment::Production) != gateway_host(Environment::Sandbox),
        endpoint_url(a, device_a) == endpoint_url(b, device_b) ==> a == b && device_a == device_b,
{
    reveal_strlit("https://");
    reveal_strlit("api.push.apple.com");
    reveal_strlit("api.sandbox.push.apple.com");
    reveal_strlit("/3/device/");
    let production = gateway_host(Environment::Production);
    let sandbox = gateway_host(Environment::Sandbox);
    assert(production[4] == 'p');
    assert(sandbox[4] == 's');
    if endpoint_url(a, device_a) == endpoint_url(b, device_b) {
        let url_a = endpoint_url(a, device_a);
        let url_b = endpoint_url(b, device_b);
        assert(url_a[12] == gateway_host(a)[4]);
        assert(url_b[12] == gateway_host(b)[4]);
        assert(a == b);
        let head = "https://"@ + gateway_host(a) + "/3/device/"@;
        assert(url_a.subrange(head.len() as int, url_a.len() as int) == device_a);
        assert(url_b.subrange(head.len() as int, url_b.len() as int) == device_b);
    }
}

} // verus!
