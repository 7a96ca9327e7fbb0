//! Token-authenticated push notifications for Apple's notification gateway.
//!
//! A send has three parts. `issue` signs a short-lived bearer token for a
//! signing identity. `encode` writes the notification in the gateway's JSON
//! form. `plan_send` joins the two into the request for one device, and
//! `conclude_send` turns what the transport hands back into the outcome. The
//! transport itself lies outside this library.

pub mod clock;
pub mod error;
pub mod json;
pub mod payload;
pub mod reading;
pub mod request;
pub mod sender;
pub mod token;

pub use clock::{get_current_unix_time, whole_seconds};
pub use error::PushError;
pub use payload::{encode, ApnsPayload, Aps};
pub use request::{
    assemble_request, authorization_value, host_of, resolve_url, DeliveryTarget, Environment,
    HeaderField, Method, Protocol, PushRequest,
};
pub use sender::{
    begin_send, begin_send_at, conclude_send, plan_send, DeliveryOutcome, GatewayResponse,
    ResponseHeader, TransportReply,
};
pub use token::{
    issue, signed_token, signing_key, Claim, ClaimValue, Claims, SigningIdentity, KEY_PEM_MAX,
};
