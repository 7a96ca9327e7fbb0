//! One send, in the two steps that lie on either side of the transport: what
//! to post, and what to make of the answer.

use crate::error::PushError;
use crate::payload::ApnsPayload;
use crate::clock::{get_current_unix_time, seconds_of};
use crate::request::{
    assemble_request, assembled, header_value_ok, lemma_token_is_header_text, DeliveryTarget,
    PushRequest,
};
use crate::token::{
    es256_signing_input, issue, key_parses, token_carries, token_text, Claims,
    SigningIdentity,
};
use std::time::{Duration, SystemTimeError};
use vstd::prelude::*;

verus! {

/// One header of the gateway's answer, its value in the bytes in which it came.
#[derive(Debug, Clone, PartialEq, Eq)]
pub struct ResponseHeader {
    pub name: String,
    pub value: Vec<u8>,
}

/// What the gateway answered: the status, the headers and the body as they came.
#[derive(Debug, Clone, PartialEq, Eq)]
pub struct GatewayResponse {
    pub status: u16,
    pub headers: Vec<ResponseHeader>,
    pub body: Vec<u8>,
}

/// What the transport hands back: the gateway's answer, or its own failure in
/// its own words.
#[derive(Debug, Clone, PartialEq, Eq)]
pub enum TransportReply {
    Response(GatewayResponse),
    Failure(String),
}

/// How a send that reached the transport ended. The answer is passed on as it
/// came; what a status or a body means is left to the caller.
#[derive(Debug, Clone, PartialEq, Eq)]
pub enum DeliveryOutcome {
    /// The gateway answered with a status from 200 to 299.
    Delivered(GatewayResponse),
    /// The gateway answered with any other status.
    GatewayRejection(GatewayResponse),
    /// No answer came: the connection, TLS or the protocol failed.
    TransportError(String),
}

/// A status that reports success.
pub open spec fn is_success(status: u16) -> bool {
    200 <= status < 300
}

/// The outcome that stands for a reply.
pub open spec fn outcome_of(reply: TransportReply) -> DeliveryOutcome {
    match reply {
        TransportReply::Response(response) => if is_success(response.status) {
            DeliveryOutcome::Delivered(response)
        } else {
            DeliveryOutcome::GatewayRejection(response)
        },
        TransportReply::Failure(message) => DeliveryOutcome::TransportError(message),
    }
}

/// What `plan_send` may return for its arguments. The key is judged first, then
/// the signing, then the payload, then the topic. Whether a key that parsed
/// signs is the signer's to say; where it does, the request is what
/// `assemble_request` makes of a token that carries the key identifier and the
/// claims, and a token is never what a header refuses.
pub open spec fn planned(
    r: Result<PushRequest, PushError>,
    identity: &SigningIdentity,
    claims: &Claims,
    target: &DeliveryTarget,
    payload: &ApnsPayload,
) -> bool {
    if !key_parses(identity.private_key@) {
        r == Err::<PushRequest, PushError>(PushError::KeyFormatError)
    } else if r == Err::<PushRequest, PushError>(PushError::SigningError) {
        true
    } else if !payload.well_formed() {
        r == Err::<PushRequest, PushError>(PushError::PayloadEncodingError)
    } else if !header_value_ok(target.topic@) {
        r == Err::<PushRequest, PushError>(PushError::HeaderValueError)
    } else {
        &&& r is Ok
        &&& exists|token: Seq<char>|
            {
                &&& #[trigger] token_carries(
                    token,
                    es256_signing_input(identity.key_id@, claims.members()),
                )
                &&& token_text(token)
                &&& assembled(r, token, target, payload)
            }
    }
}

/// Prepares the request for one notification: issues the token for `claims`,
/// encodes the payload, and addresses the target.
pub fn plan_send(
    identity: &SigningIdentity,
    claims: &Claims,
    target: &DeliveryTarget,
    payload: &ApnsPayload,
) -> (r: Result<PushRequest, PushError>)
    ensures
        planned(r, identity, claims, target, payload),
{
    match issue(identity, claims) {
        Ok(token) => {
            let r = assemble_request(token.as_str(), target, payload);
            proof {
                lemma_token_is_header_text(token@);
            }
            r
        },
        Err(e) => Err(e),
    }
}

/// What `begin_send_at` returns for a reading of the clock: without a time
/// nothing is issued; with one, the claims name the identity's issuer and that
/// time, and the rest is as `plan_send` has it.
pub open spec fn begun(
    r: Result<PushRequest, PushError>,
    issued_at: Option<u64>,
    identity: &SigningIdentity,
    target: &DeliveryTarget,
    payload: &ApnsPayload,
) -> bool {
    match issued_at {
        None => r == Err::<PushRequest, PushError>(PushError::ClockError),
        Some(now) => exists|claims: Claims|
            {
                &&& claims.iss@ == identity.issuer@
                &&& claims.iat == now
                &&& #[trigger] planned(r, identity, &claims, target, payload)
            },
    }
}

/// Prepares the request for one notification that is issued at the time
/// given, a reading of the clock in whole seconds since the Unix epoch.
pub fn begin_send_at(
    issued_at: Option<u64>,
    identity: &SigningIdentity,
    target: &DeliveryTarget,
    payload: &ApnsPayload,
) -> (r: Result<PushRequest, PushError>)
    ensures
        begun(r, issued_at, identity, target, payload),
{
    match issued_at {
        Some(now) => {
            let claims = Claims { iss: identity.issuer.clone(), iat: now };
            plan_send(identity, &claims, target, payload)
        },
        None => Err(PushError::ClockError),
    }
}

/// Prepares the request for one notification that is issued now: reads the
/// clock and goes on as `begin_send_at` does with the whole seconds of what it
/// read.
pub fn begin_send(identity: &SigningIdentity, target: &DeliveryTarget, payload: &ApnsPayload) -> (r:
    Result<PushRequest, PushError>)
    ensures
        exists|elapsed: Result<Duration, SystemTimeError>| #[trigger]
            begun(r, seconds_of(elapsed), identity, target, payload),
{
    let issued_at = get_current_unix_time();
    let ghost elapsed = choose|elapsed: Result<Duration, SystemTimeError>|
        issued_at == #[trigger] seconds_of(elapsed);
    let r = begin_send_at(issued_at, identity, target, payload);
    assert(begun(r, seconds_of(elapsed), identity, target, payload));
    r
}

/// Makes the outcome of a send from what the transport handed back.
pub fn conclude_send(reply: TransportReply) -> (outcome: DeliveryOutcome)
    ensures
        outcome == outcome_of(reply),
{
    match reply {
        TransportReply::Response(response) => {
            if 200 <= response.status && response.status < 300 {
                DeliveryOutcome::Delivered(response)
            } else {
                DeliveryOutcome::GatewayRejection(response)
            }
        },
        TransportReply::Failure(message) => DeliveryOutcome::TransportError(message),
    }
}

} // verus!
