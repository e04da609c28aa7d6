use jsonwebtoken::{encode, Algorithm, EncodingKey, Header};
use sovaehr::errors::{AppError, AuthError};
use sovaehr::guard::authenticate;
use sovaehr::http_response::AppHttpResponse;

fn claims(sub: &str, exp: Option<u64>) -> serde_json::Value {
    let mut m = serde_json::Map::new();
    m.insert(
        "sub".to_string(),
        serde_json::Value::String(sub.to_string()),
    );
    if let Some(exp) = exp {
        m.insert(
            "exp".to_string(),
            serde_json::Value::Number(serde_json::Number::from(exp)),
        );
    }
    serde_json::Value::Object(m)
}

fn sign(claims: &serde_json::Value, key: &[u8]) -> String {
    encode(&Header::new(Algorithm::HS256), claims, &EncodingKey::from_secret(key)).unwrap()
}

const FAR_FUTURE: u64 = 9_999_999_999;

// "my_secret!" is not valid base64, so verification falls back to the raw
// bytes of the configured secret.
const RAW_SECRET: &str = "my_secret!";

#[test]
fn valid_token_yields_subject() {
    let token = sign(&claims("user-42", Some(FAR_FUTURE)), RAW_SECRET.as_bytes());
    let header = format!("Bearer {token}");
    let user = authenticate(Some(&header), RAW_SECRET).unwrap();
    assert_eq!(user.user_id, "user-42");
    assert_eq!(user.token, token);
}

#[test]
fn base64_secret_is_tried_first() {
    // The configured secret is the standard base64 of "secret123secret123";
    // tokens must verify against the decoded bytes.
    let configured = "c2VjcmV0MTIzc2VjcmV0MTIz";
    let token = sign(&claims("user-б64", Some(FAR_FUTURE)), b"secret123secret123");
    let header = format!("Bearer {token}");
    let user = authenticate(Some(&header), configured).unwrap();
    assert_eq!(user.user_id, "user-б64");

    // A token signed with the undecoded text of the secret must not verify.
    let raw_signed = sign(&claims("x", Some(FAR_FUTURE)), configured.as_bytes());
    let header = format!("Bearer {raw_signed}");
    match authenticate(Some(&header), configured) {
        Err(AppError::Auth(AuthError::InvalidToken)) => {}
        _ => panic!("expected InvalidToken"),
    }
}

#[test]
fn missing_header_is_missing_token() {
    match authenticate(None, RAW_SECRET) {
        Err(AppError::Auth(AuthError::MissingToken)) => {}
        _ => panic!("expected MissingToken"),
    }
}

#[test]
fn non_bearer_header_is_missing_token() {
    let token = sign(&claims("user-42", Some(FAR_FUTURE)), RAW_SECRET.as_bytes());
    let header = format!("Basic {token}");
    match authenticate(Some(&header), RAW_SECRET) {
        Err(AppError::Auth(AuthError::MissingToken)) => {}
        _ => panic!("expected MissingToken"),
    }
    match authenticate(Some("Bearer"), RAW_SECRET) {
        Err(AppError::Auth(AuthError::MissingToken)) => {}
        _ => panic!("expected MissingToken"),
    }
}

#[test]
fn tampered_signature_is_invalid_token() {
    let token = sign(&claims("user-42", Some(FAR_FUTURE)), RAW_SECRET.as_bytes());
    let mut tampered = token.clone();
    let last = tampered.pop().unwrap();
    tampered.push(if last == 'A' { 'B' } else { 'A' });
    let header = format!("Bearer {tampered}");
    match authenticate(Some(&header), RAW_SECRET) {
        Err(AppError::Auth(AuthError::InvalidToken)) => {}
        _ => panic!("expected InvalidToken"),
    }
}

#[test]
fn wrong_key_is_invalid_token() {
    let token = sign(&claims("user-42", Some(FAR_FUTURE)), b"another_key?");
    let header = format!("Bearer {token}");
    match authenticate(Some(&header), RAW_SECRET) {
        Err(AppError::Auth(AuthError::InvalidToken)) => {}
        _ => panic!("expected InvalidToken"),
    }
}

#[test]
fn expired_token_is_expired_token() {
    let token = sign(&claims("user-42", Some(1000)), RAW_SECRET.as_bytes());
    let header = format!("Bearer {token}");
    match authenticate(Some(&header), RAW_SECRET) {
        Err(AppError::Auth(AuthError::ExpiredToken)) => {}
        _ => panic!("expected ExpiredToken"),
    }
}

#[test]
fn token_without_expiry_is_invalid() {
    let token = sign(&claims("user-42", None), RAW_SECRET.as_bytes());
    let header = format!("Bearer {token}");
    match authenticate(Some(&header), RAW_SECRET) {
        Err(AppError::Auth(AuthError::InvalidToken)) => {}
        _ => panic!("expected InvalidToken"),
    }
}

#[test]
fn guard_failures_all_map_to_401() {
    let expired = sign(&claims("u", Some(1000)), RAW_SECRET.as_bytes());
    let expired_header = format!("Bearer {expired}");
    let garbled = "Bearer not.a.token".to_string();
    let cases: Vec<Option<&str>> = vec![
        None,
        Some("Token abc"),
        Some(&garbled),
        Some(&expired_header),
    ];
    for header in cases {
        let err = authenticate(header, RAW_SECRET).unwrap_err();
        let resp = AppHttpResponse::from_app_error(err, "req-1");
        assert_eq!(resp.status_code(), 401);
    }
}
