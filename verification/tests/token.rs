use apnrs::{
    issue, signed_token, signing_key, Claim, ClaimValue, Claims, PushError, SigningIdentity,
    KEY_PEM_MAX,
};
use base64::Engine;

// A P-256 key pair that is published for testing: the private key as a
// PKCS#8 document, the public key as an uncompressed point.
const PRIVATE_DOCUMENT: [u8; 138] = [
    0x30, 0x81, 0x87, 0x02, 0x01, 0x00, 0x30, 0x13, 0x06, 0x07, 0x2a, 0x86, 0x48, 0xce, 0x3d,
    0x02, 0x01, 0x06, 0x08, 0x2a, 0x86, 0x48, 0xce, 0x3d, 0x03, 0x01, 0x07, 0x04, 0x6d, 0x30,
    0x6b, 0x02, 0x01, 0x01, 0x04, 0x20, 0x59, 0x31, 0x5f, 0x08, 0x69, 0x63, 0x63, 0xa6, 0xb0,
    0xdc, 0x7a, 0xed, 0x90, 0x79, 0x8f, 0x46, 0x26, 0xb3, 0xba, 0x4c, 0x4f, 0x2d, 0xbe, 0xa2,
    0x96, 0x94, 0x40, 0x7b, 0x08, 0xd6, 0xf2, 0x78, 0xa1, 0x44, 0x03, 0x42, 0x00, 0x04, 0xc3,
    0xb2, 0x40, 0xa1, 0x4f, 0xe0, 0x25, 0xb6, 0x49, 0xbd, 0x5f, 0xb3, 0x08, 0xeb, 0xd4, 0xf7,
    0x21, 0x49, 0xab, 0x41, 0x4d, 0x0b, 0xf7, 0x9d, 0x08, 0xc4, 0x4c, 0xef, 0xc3, 0xfc, 0x79,
    0x04, 0xc1, 0x08, 0x35, 0x13, 0x2b, 0x5c, 0xb0, 0x49, 0x86, 0xac, 0xce, 0xf4, 0x19, 0xbe,
    0x77, 0xa2, 0x5b, 0xa8, 0x0d, 0xb5, 0x61, 0x09, 0x9d, 0xd4, 0xab, 0x78, 0x47, 0x32, 0xc9,
    0x47, 0x55, 0xbe,
];

const PUBLIC_POINT: [u8; 65] = [
    0x04, 0xc3, 0xb2, 0x40, 0xa1, 0x4f, 0xe0, 0x25, 0xb6, 0x49, 0xbd, 0x5f, 0xb3, 0x08, 0xeb,
    0xd4, 0xf7, 0x21, 0x49, 0xab, 0x41, 0x4d, 0x0b, 0xf7, 0x9d, 0x08, 0xc4, 0x4c, 0xef, 0xc3,
    0xfc, 0x79, 0x04, 0xc1, 0x08, 0x35, 0x13, 0x2b, 0x5c, 0xb0, 0x49, 0x86, 0xac, 0xce, 0xf4,
    0x19, 0xbe, 0x77, 0xa2, 0x5b, 0xa8, 0x0d, 0xb5, 0x61, 0x09, 0x9d, 0xd4, 0xab, 0x78, 0x47,
    0x32, 0xc9, 0x47, 0x55, 0xbe,
];

fn pem(label: &str, document: &[u8]) -> Vec<u8> {
    let body = base64::engine::general_purpose::STANDARD.encode(document);
    format!("-----BEGIN {}-----\n{}\n-----END {}-----\n", label, body, label).into_bytes()
}

fn identity(private_key: Vec<u8>) -> SigningIdentity {
    SigningIdentity {
        issuer: "TEAMID1".to_string(),
        key_id: "KEYID1".to_string(),
        private_key,
    }
}

fn test_claims() -> Claims {
    Claims { iss: "TEAMID1".to_string(), iat: 1700000000 }
}

fn decoded(part: &str) -> String {
    let bytes = base64::engine::general_purpose::URL_SAFE_NO_PAD.decode(part).unwrap();
    String::from_utf8(bytes).unwrap()
}

#[test]
fn issue_declares_es256_and_the_key_identifier() {
    let token = issue(&identity(pem("PRIVATE KEY", &PRIVATE_DOCUMENT)), &test_claims()).unwrap();
    let header = jsonwebtoken::decode_header(&token).unwrap();
    assert_eq!(header.alg, jsonwebtoken::Algorithm::ES256);
    assert_eq!(header.kid.as_deref(), Some("KEYID1"));
    assert_eq!(header.typ.as_deref(), Some("JWT"));
}

#[test]
fn issue_carries_exactly_the_two_claims() {
    let token = issue(&identity(pem("PRIVATE KEY", &PRIVATE_DOCUMENT)), &test_claims()).unwrap();
    let parts: Vec<&str> = token.split('.').collect();
    assert_eq!(parts.len(), 3);
    assert_eq!(decoded(parts[0]), "{\"typ\":\"JWT\",\"alg\":\"ES256\",\"kid\":\"KEYID1\"}");
    assert_eq!(decoded(parts[1]), "{\"iss\":\"TEAMID1\",\"iat\":1700000000}");
    let claims: serde_json::Value = serde_json::from_str(&decoded(parts[1])).unwrap();
    assert_eq!(claims.as_object().unwrap().len(), 2);
    assert_eq!(claims["iss"].as_str(), Some("TEAMID1"));
    assert_eq!(claims["iat"].as_u64(), Some(1700000000));
}

#[test]
fn issue_signs_with_the_key() {
    let token = issue(&identity(pem("PRIVATE KEY", &PRIVATE_DOCUMENT)), &test_claims()).unwrap();
    let mut validation = jsonwebtoken::Validation::new(jsonwebtoken::Algorithm::ES256);
    validation.required_spec_claims.clear();
    validation.validate_exp = false;
    let key = jsonwebtoken::DecodingKey::from_ec_der(&PUBLIC_POINT);
    let data = jsonwebtoken::decode::<serde_json::Value>(&token, &key, &validation).unwrap();
    assert_eq!(data.claims["iss"].as_str(), Some("TEAMID1"));
    assert_eq!(data.claims["iat"].as_u64(), Some(1700000000));
    assert_eq!(data.header.kid.as_deref(), Some("KEYID1"));
}

#[test]
fn issue_carries_other_identifiers_and_times_too() {
    let signer = SigningIdentity {
        issuer: "ignored here".to_string(),
        key_id: "K \"2\"".to_string(),
        private_key: pem("PRIVATE KEY", &PRIVATE_DOCUMENT),
    };
    for iat in [0u64, 1, u64::MAX] {
        let claims = Claims { iss: "T\\2".to_string(), iat };
        let token = issue(&signer, &claims).unwrap();
        let parts: Vec<&str> = token.split('.').collect();
        let header: serde_json::Value = serde_json::from_str(&decoded(parts[0])).unwrap();
        let body: serde_json::Value = serde_json::from_str(&decoded(parts[1])).unwrap();
        assert_eq!(header["alg"].as_str(), Some("ES256"));
        assert_eq!(header["kid"].as_str(), Some("K \"2\""));
        assert_eq!(body["iss"].as_str(), Some("T\\2"));
        assert_eq!(body["iat"].as_u64(), Some(iat));
    }
}

#[test]
fn issue_begins_every_token_for_the_same_claims_alike() {
    let signer = identity(pem("PRIVATE KEY", &PRIVATE_DOCUMENT));
    let first = issue(&signer, &test_claims()).unwrap();
    let second = issue(&signer, &test_claims()).unwrap();
    let cut_first = first.rfind('.').unwrap();
    let cut_second = second.rfind('.').unwrap();
    assert_eq!(first[..cut_first], second[..cut_second]);
    assert!(first.len() > cut_first + 1);
}

#[test]
fn issue_refuses_bytes_that_are_no_pem() {
    for bytes in [&b"this is not a key"[..], &b""[..], &[0xff, 0xfe, 0x00][..]] {
        let r = issue(&identity(bytes.to_vec()), &test_claims());
        assert_eq!(r, Err(PushError::KeyFormatError));
    }
}

#[test]
fn issue_refuses_pem_that_holds_no_private_ec_key() {
    let garbage = pem("PRIVATE KEY", &[1, 2, 3, 4]);
    assert_eq!(issue(&identity(garbage), &test_claims()), Err(PushError::KeyFormatError));
    let other_tag = pem("EC PRIVATE KEY", &PRIVATE_DOCUMENT);
    assert_eq!(issue(&identity(other_tag), &test_claims()), Err(PushError::KeyFormatError));
    let public = pem("PUBLIC KEY", &PRIVATE_DOCUMENT);
    assert_eq!(issue(&identity(public), &test_claims()), Err(PushError::KeyFormatError));
}

#[test]
fn issue_reports_a_key_that_parses_but_cannot_sign() {
    let mut document = PRIVATE_DOCUMENT;
    document[40] ^= 0x01;
    let r = issue(&identity(pem("PRIVATE KEY", &document)), &test_claims());
    assert_eq!(r, Err(PushError::SigningError));
}

#[test]
fn signing_key_keeps_a_key_and_names_the_error() {
    let parsed = jsonwebtoken::EncodingKey::from_ec_pem(&pem("PRIVATE KEY", &PRIVATE_DOCUMENT));
    assert!(signing_key(parsed).is_ok());
    let refused = jsonwebtoken::EncodingKey::from_ec_pem(b"nothing");
    assert!(matches!(signing_key(refused), Err(PushError::KeyFormatError)));
}

#[test]
fn signed_token_keeps_a_token_and_names_the_error() {
    assert_eq!(signed_token(Ok("a.b.c".to_string())), Ok("a.b.c".to_string()));
    let failure: jsonwebtoken::errors::Error =
        jsonwebtoken::errors::ErrorKind::InvalidEcdsaKey.into();
    assert_eq!(signed_token(Err(failure)), Err(PushError::SigningError));
}

#[test]
fn issue_makes_tokens_of_letters_digits_hyphens_underscores_and_dots() {
    let signer = SigningIdentity {
        issuer: "TEAMID1".to_string(),
        key_id: "k\u{e9}y \"?\"\n".to_string(),
        private_key: pem("PRIVATE KEY", &PRIVATE_DOCUMENT),
    };
    let claims = Claims { iss: "\u{1f600}>>>???\u{0}".to_string(), iat: u64::MAX };
    for _ in 0..8 {
        let token = issue(&signer, &claims).unwrap();
        assert!(token
            .chars()
            .all(|c| c.is_ascii_alphanumeric() || c == '-' || c == '_' || c == '.'));
        assert_eq!(token.chars().filter(|c| *c == '.').count(), 2);
    }
}

fn padded_to(mut text: Vec<u8>, length: usize) -> Vec<u8> {
    while text.len() < length {
        text.push(b'\n');
    }
    text
}

#[test]
fn issue_takes_a_key_text_of_the_greatest_length() {
    let text = padded_to(pem("PRIVATE KEY", &PRIVATE_DOCUMENT), KEY_PEM_MAX);
    assert_eq!(text.len(), 512);
    assert!(jsonwebtoken::EncodingKey::from_ec_pem(&text).is_ok());
    assert!(issue(&identity(text), &test_claims()).is_ok());
}

#[test]
fn issue_refuses_a_key_text_that_is_longer() {
    let text = padded_to(pem("PRIVATE KEY", &PRIVATE_DOCUMENT), KEY_PEM_MAX + 1);
    assert!(jsonwebtoken::EncodingKey::from_ec_pem(&text).is_ok());
    assert_eq!(issue(&identity(text), &test_claims()), Err(PushError::KeyFormatError));
    let long = padded_to(pem("PRIVATE KEY", &PRIVATE_DOCUMENT), 1 << 20);
    assert_eq!(issue(&identity(long), &test_claims()), Err(PushError::KeyFormatError));
}

#[test]
fn issue_returns_on_the_deepest_nesting_that_the_greatest_length_holds() {
    let mut document: Vec<u8> = vec![0x30, 0x00];
    loop {
        let mut outer: Vec<u8> = vec![0x30];
        if document.len() < 128 {
            outer.push(document.len() as u8);
        } else if document.len() < 256 {
            outer.extend_from_slice(&[0x81, document.len() as u8]);
        } else {
            outer.extend_from_slice(&[0x82, (document.len() >> 8) as u8, document.len() as u8]);
        }
        outer.extend_from_slice(&document);
        if pem("PRIVATE KEY", &outer).len() > KEY_PEM_MAX {
            break;
        }
        document = outer;
    }
    assert!(document.len() > 300);
    let text = pem("PRIVATE KEY", &document);
    assert!(text.len() <= KEY_PEM_MAX);
    assert_eq!(issue(&identity(text), &test_claims()), Err(PushError::KeyFormatError));
}

#[test]
fn the_body_of_a_token_is_the_issuer_and_then_the_time() {
    let list = Claims { iss: "TEAMID1".to_string(), iat: 1700000000 }.to_members();
    assert_eq!(
        list,
        vec![
            Claim { name: "iss".to_string(), value: ClaimValue::Text("TEAMID1".to_string()) },
            Claim { name: "iat".to_string(), value: ClaimValue::Number(1700000000) },
        ]
    );
}
