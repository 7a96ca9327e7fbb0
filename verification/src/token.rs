//! Bearer tokens: the claims, the signing identity, and the signed token.

use crate::error::PushError;
use crate::json::{JsonMember, JsonScalar};
use vstd::prelude::*;
use vstd::string::StringExecFns;

verus! {

/// The claims that a token carries.
#[derive(Debug, Clone, PartialEq, Eq)]
pub struct Claims {
    /// The issuer: the team identifier.
    pub iss: String,
    /// The time of issue, in whole seconds since the Unix epoch.
    pub iat: u64,
}

/// Who signs: the team, the key's identifier, and the key itself.
#[derive(Debug, Clone, PartialEq, Eq)]
pub struct SigningIdentity {
    /// The team identifier.
    pub issuer: String,
    /// The identifier of the signing key.
    pub key_id: String,
    /// The private key: PEM text that holds a PKCS#8 elliptic-curve key.
    pub private_key: Vec<u8>,
}

/// What a claim holds: a text or a number.
#[derive(Debug, Clone, PartialEq, Eq)]
pub enum ClaimValue {
    Text(String),
    Number(u64),
}

/// One claim as it goes into a token's body: its name and what it holds.
#[derive(Debug, Clone, PartialEq, Eq)]
pub struct Claim {
    pub name: String,
    pub value: ClaimValue,
}

impl Claim {
    /// The claim as a member of the body.
    pub open spec fn member(&self) -> JsonMember {
        JsonMember {
            key: self.name@,
            value: match self.value {
                ClaimValue::Text(text) => JsonScalar::Text(text@),
                ClaimValue::Number(number) => JsonScalar::Number(number as nat),
            },
        }
    }
}

/// A list of claims as the members of the body, in the same order.
pub open spec fn claim_members(claims: Seq<Claim>) -> Seq<JsonMember> {
    Seq::new(claims.len(), |i: int| claims[i].member())
}

impl Claims {
    /// The body of the token: exactly two members, the issuer under `iss` and
    /// then the time of issue under `iat`.
    pub open spec fn members(&self) -> Seq<JsonMember> {
        seq![
            JsonMember { key: "iss"@, value: JsonScalar::Text(self.iss@) },
            JsonMember { key: "iat"@, value: JsonScalar::Number(self.iat as nat) },
        ]
    }

    /// The claims as the list that goes into the token's body.
    pub fn to_members(&self) -> (list: Vec<Claim>)
        ensures
            claim_members(list@) == self.members(),
    {
        let mut list: Vec<Claim> = Vec::new();
        list.push(
            Claim { name: String::from_str("iss"), value: ClaimValue::Text(self.iss.clone()) },
        );
        list.push(Claim { name: String::from_str("iat"), value: ClaimValue::Number(self.iat) });
        list
    }
}

/// The longest key text that is handed to the parser: twice what a P-256 key
/// in PKCS#8 and PEM takes, which is some 240 bytes. The parser follows nested
/// content by recursion, and every level of nesting takes two bytes of content
/// at least, so a text within this length nests less than two hundred deep.
pub const KEY_PEM_MAX: usize = 512;

/// `jsonwebtoken::Algorithm`, the signing algorithms that the token crate knows.
/// It is declared with its variants, so that `issue` itself names the one it uses.
#[verifier::external_type_specification]
pub struct ExAlgorithm(jsonwebtoken::Algorithm);

/// `jsonwebtoken::EncodingKey`, a parsed signing key. Nothing is known of its inside.
#[verifier::external_type_specification]
#[verifier::external_body]
pub struct ExEncodingKey(jsonwebtoken::EncodingKey);

/// `jsonwebtoken::errors::Error`, the token crate's error. Nothing is known of its inside.
#[verifier::external_type_specification]
#[verifier::external_body]
pub struct ExTokenError(jsonwebtoken::errors::Error);

/// Whether `jsonwebtoken::EncodingKey::from_ec_pem` accepts these bytes: whether
/// they are PEM text with the tag of a PKCS#8 private key whose content names
/// the elliptic-curve key type.
pub uninterp spec fn ec_key_pem_accepted(pem: Seq<u8>) -> bool;

/// A key text that `issue` takes: one that is short enough to be parsed and
/// that the parser accepts.
pub open spec fn key_parses(pem: Seq<u8>) -> bool {
    pem.len() <= KEY_PEM_MAX && ec_key_pem_accepted(pem)
}

/// The first two of the three parts of a token that `jsonwebtoken::encode`
/// builds for ES256: the header with the key identifier and the body with the
/// claims, each serialised and encoded, with a dot between them.
pub uninterp spec fn es256_signing_input(kid: Seq<char>, claims: Seq<JsonMember>) -> Seq<char>;

/// A token carries a signing input when it is that input, a dot, and then the
/// signature.
pub open spec fn token_carries(token: Seq<char>, signing_input: Seq<char>) -> bool {
    &&& token.len() > signing_input.len()
    &&& token.subrange(0, signing_input.len() as int) == signing_input
    &&& token[signing_input.len() as int] == '.'
}

/// A character of which a token is made: a letter, a digit, the hyphen, the
/// underscore, or the dot that parts the token in three.
pub open spec fn is_token_char(c: char) -> bool {
    ||| 'A' as u32 <= c as u32 <= 'Z' as u32
    ||| 'a' as u32 <= c as u32 <= 'z' as u32
    ||| '0' as u32 <= c as u32 <= '9' as u32
    ||| c == '-'
    ||| c == '_'
    ||| c == '.'
}

/// A text made of such characters alone.
pub open spec fn token_text(token: Seq<char>) -> bool {
    forall|i: int| 0 <= i < token.len() ==> is_token_char(#[trigger] token[i])
}

/// Calls `jsonwebtoken::EncodingKey::from_ec_pem`, which parses the bytes and
/// succeeds exactly on those that `ec_key_pem_accepted` names. The same bytes
/// always give the same answer. The parser follows nested content by
/// recursion, to a depth that the length of the text bounds; a longer text
/// could nest deeper than the stack holds, and is left out.
#[verifier::external_body]
fn parse_ec_key(pem: &[u8]) -> (r: Result<jsonwebtoken::EncodingKey, jsonwebtoken::errors::Error>)
    requires
        pem@.len() <= KEY_PEM_MAX,
    ensures
        r is Ok <==> ec_key_pem_accepted(pem@),
{
    jsonwebtoken::EncodingKey::from_ec_pem(pem)
}

/// Calls `jsonwebtoken::encode` with a header for `algorithm` that carries `kid`
/// and with a body that holds the claims of the list, each under its name, in
/// the order of the list. The signature differs from call to call, and signing
/// can fail; what comes before the signature is fixed by the arguments, and of
/// that only ES256 is spoken of. Each of the three parts is written in the
/// URL-safe base64 alphabet without padding, so a token holds nothing but that
/// alphabet and dots.
#[verifier::external_body]
fn encode_token(
    algorithm: jsonwebtoken::Algorithm,
    kid: &str,
    claims: &Vec<Claim>,
    key: &jsonwebtoken::EncodingKey,
) -> (r: Result<String, jsonwebtoken::errors::Error>)
    ensures
        algorithm == jsonwebtoken::Algorithm::ES256 ==> (r matches Ok(token) ==> token_carries(
            token@,
            es256_signing_input(kid@, claim_members(claims@)),
        )),
        r matches Ok(token) ==> token_text(token@),
{
    let mut header = jsonwebtoken::Header::new(algorithm);
    header.kid = Some(kid.to_string());
    let mut body = serde_json::Map::new();
    for claim in claims.iter() {
        let value = match &claim.value {
            ClaimValue::Text(text) => serde_json::Value::from(text.as_str()),
            ClaimValue::Number(number) => serde_json::Value::from(*number),
        };
        body.insert(claim.name.clone(), value);
    }
    jsonwebtoken::encode(&header, &body, key)
}

/// The parsed key, or the error that stands for bytes that did not parse.
pub fn signing_key(parsed: Result<jsonwebtoken::EncodingKey, jsonwebtoken::errors::Error>) -> (r:
    Result<jsonwebtoken::EncodingKey, PushError>)
    ensures
        match parsed {
            Ok(key) => r == Ok::<jsonwebtoken::EncodingKey, PushError>(key),
            Err(_) => r == Err::<jsonwebtoken::EncodingKey, PushError>(PushError::KeyFormatError),
        },
{
    match parsed {
        Ok(key) => Ok(key),
        Err(_) => Err(PushError::KeyFormatError),
    }
}

/// The signed token, or the error that stands for a signing that failed.
pub fn signed_token(signed: Result<String, jsonwebtoken::errors::Error>) -> (r: Result<
    String,
    PushError,
>)
    ensures
        match signed {
            Ok(token) => r == Ok::<String, PushError>(token),
            Err(_) => r == Err::<String, PushError>(PushError::SigningError),
        },
{
    match signed {
        Ok(token) => Ok(token),
        Err(_) => Err(PushError::SigningError),
    }
}

/// Issues a token signed with ES256 that carries the identity's key
/// identifier in its header and the two claims in its body.
///
/// A key text that is too long or does not parse as a key gives
/// `KeyFormatError`, and only such a text does. A key that parsed gives a token
/// or, where signing fails, `SigningError`. A token is made of letters, digits,
/// hyphens, underscores and dots.
pub fn issue(identity: &SigningIdentity, claims: &Claims) -> (r: Result<String, PushError>)
    ensures
        !key_parses(identity.private_key@) ==> r == Err::<String, PushError>(
            PushError::KeyFormatError,
        ),
        key_parses(identity.private_key@) ==> (r is Ok || r == Err::<String, PushError>(
            PushError::SigningError,
        )),
        r matches Ok(token) ==> token_carries(
            token@,
            es256_signing_input(identity.key_id@, claims.members()),
        ),
        r matches Ok(token) ==> token_text(token@),
{
    if identity.private_key.len() > KEY_PEM_MAX {
        return Err(PushError::KeyFormatError);
    }
    let key = match signing_key(parse_ec_key(identity.private_key.as_slice())) {
        Ok(key) => key,
        Err(e) => {
            return Err(e);
        },
    };
    let body = claims.to_members();
    signed_token(
        encode_token(jsonwebtoken::Algorithm::ES256, identity.key_id.as_str(), &body, &key),
    )
}

} // verus!
