use auth_service::domain::data_stores::BannedTokenStore;
use auth_service::domain::Email;
use auth_service::services::data_stores::hashset_banned_token_store::HashsetBannedTokenStore;
use auth_service::utils::auth::TokenError;
use auth_service::utils::auth::TokenService;
use auth_service::utils::auth::TOKEN_TTL_SECONDS;
use hmac::Hmac;
use hmac::Mac;
use sha2::Sha256;

const NOW: u64 = 1_700_000_000;

fn service() -> TokenService {
    TokenService::new(b"secret".to_vec(), TOKEN_TTL_SECONDS)
}

fn email(text: &str) -> Email {
    Email::parse(text.to_string()).unwrap()
}

fn hex(bytes: &[u8]) -> String {
    bytes.iter().map(|b| format!("{:02x}", b)).collect()
}

fn kind(r: Result<auth_service::utils::auth::Claims, TokenError>) -> &'static str {
    match r {
        Ok(_) => "valid",
        Err(TokenError::Expired) => "expired",
        Err(TokenError::BadSignature) => "bad signature",
        Err(TokenError::Malformed) => "malformed",
        Err(TokenError::Revoked) => "revoked",
        Err(TokenError::UnexpectedError(_)) => "unexpected",
    }
}

#[test]
fn token_ttl_is_ten_minutes() {
    assert_eq!(TOKEN_TTL_SECONDS, 600);
}

#[test]
fn issued_token_has_the_documented_layout() {
    let token = service().issue(&email("a@example.com"), NOW).unwrap();
    let text = token.0;
    assert_eq!(text.len(), 96 + "a@example.com".len());
    assert_eq!(&text[64..80], format!("{:016x}", NOW));
    assert_eq!(&text[80..96], format!("{:016x}", NOW + 600));
    assert_eq!(&text[96..], "a@example.com");
    assert!(text[..64].chars().all(|c| c.is_ascii_digit() || ('a'..='f').contains(&c)));
}

#[test]
fn issued_token_is_signed_with_hmac_sha256() {
    let token = service().issue(&email("a@example.com"), NOW).unwrap();
    let payload = format!("{:016x}{:016x}{}", NOW, NOW + 600, "a@example.com");
    let mut mac = Hmac::<Sha256>::new_from_slice(b"secret").unwrap();
    mac.update(payload.as_bytes());
    let tag = mac.finalize().into_bytes();
    assert_eq!(token.0, format!("{}{}", hex(&tag), payload));
}

#[test]
fn issue_is_a_function_of_its_inputs() {
    let first = service().issue(&email("a@example.com"), NOW).unwrap();
    let second = service().issue(&email("a@example.com"), NOW).unwrap();
    assert_eq!(first, second);
    assert_ne!(first, service().issue(&email("a@example.com"), NOW + 1).unwrap());
    assert_ne!(first, service().issue(&email("b@example.com"), NOW).unwrap());
    let other = TokenService::new(b"other secret".to_vec(), TOKEN_TTL_SECONDS);
    assert_ne!(first, other.issue(&email("a@example.com"), NOW).unwrap());
}

#[test]
fn validate_returns_what_issue_bound() {
    let store = HashsetBannedTokenStore::new();
    let token = service().issue(&email("test.user+tag-123@sub.example.com"), NOW).unwrap();
    let claims = service().validate(&token.0, &store, NOW).unwrap();
    assert_eq!(claims.sub, "test.user+tag-123@sub.example.com");
    assert_eq!(claims.iat, NOW);
    assert_eq!(claims.exp, NOW + 600);
    let later = service().validate(&token.0, &store, NOW + 599).unwrap();
    assert_eq!(later.sub, "test.user+tag-123@sub.example.com");
}

#[test]
fn token_expires_at_its_expiry() {
    let store = HashsetBannedTokenStore::new();
    let token = service().issue(&email("a@example.com"), NOW).unwrap();
    assert_eq!(kind(service().validate(&token.0, &store, NOW + 599)), "valid");
    assert_eq!(kind(service().validate(&token.0, &store, NOW + 600)), "expired");
    assert_eq!(kind(service().validate(&token.0, &store, u64::MAX)), "expired");
}

#[test]
fn expiry_saturates() {
    let service = service();
    assert_eq!(service.expiry(0), 600);
    assert_eq!(service.expiry(NOW), NOW + 600);
    assert_eq!(service.expiry(u64::MAX - 600), u64::MAX);
    assert_eq!(service.expiry(u64::MAX - 1), u64::MAX);
    let token = service.issue(&email("a@example.com"), u64::MAX - 1).unwrap();
    assert_eq!(&token.0[80..96], "ffffffffffffffff");
}

#[test]
fn tampered_token_has_a_bad_signature() {
    let store = HashsetBannedTokenStore::new();
    let token = service().issue(&email("a@example.com"), NOW).unwrap().0;

    let other_subject = format!("{}{}", &token[..96], "b@example.com");
    assert_eq!(kind(service().validate(&other_subject, &store, NOW)), "bad signature");

    let longer_life = format!("{}{:016x}{}", &token[..80], NOW + 6000, &token[96..]);
    assert_eq!(kind(service().validate(&longer_life, &store, NOW)), "bad signature");

    let flipped = if &token[..1] == "0" { "1" } else { "0" };
    let other_signature = format!("{}{}", flipped, &token[1..]);
    assert_eq!(kind(service().validate(&other_signature, &store, NOW)), "bad signature");

    let upper_case = format!("{}{}", token[..64].to_uppercase(), &token[64..]);
    if upper_case != token {
        assert_eq!(kind(service().validate(&upper_case, &store, NOW)), "bad signature");
    }
}

#[test]
fn token_of_another_secret_has_a_bad_signature() {
    let store = HashsetBannedTokenStore::new();
    let other = TokenService::new(b"other secret".to_vec(), TOKEN_TTL_SECONDS);
    let token = other.issue(&email("a@example.com"), NOW).unwrap();
    assert_eq!(kind(service().validate(&token.0, &store, NOW)), "bad signature");
    assert_eq!(kind(other.validate(&token.0, &store, NOW)), "valid");
}

#[test]
fn text_without_the_shape_of_a_token_is_malformed() {
    let store = HashsetBannedTokenStore::new();
    let token = service().issue(&email("a@example.com"), NOW).unwrap().0;
    for text in ["", "invalid", "ewqe", &token[..95], &"0".repeat(95)] {
        assert_eq!(kind(service().validate(text, &store, NOW)), "malformed", "Failed for input: {:?}", text);
    }
    let bad_issue_time = format!("{}{}{}", &token[..64], "000000000000000x", &token[80..]);
    assert_eq!(kind(service().validate(&bad_issue_time, &store, NOW)), "malformed");
    let bad_expiry = format!("{}{}{}", &token[..80], "00000000000003E8", &token[96..]);
    assert_eq!(kind(service().validate(&bad_expiry, &store, NOW)), "malformed");
}

#[test]
fn banned_token_is_revoked_before_anything_else_is_looked_at() {
    let mut store = HashsetBannedTokenStore::new();
    let token = service().issue(&email("a@example.com"), NOW).unwrap();
    store.store_token(token.0.clone(), NOW + 600).unwrap();
    assert_eq!(kind(service().validate(&token.0, &store, NOW)), "revoked");
    assert_eq!(kind(service().validate(&token.0, &store, NOW + 599)), "revoked");
    assert_eq!(kind(service().validate(&token.0, &store, NOW + 600)), "expired");

    store.store_token("invalid".to_string(), NOW + 600).unwrap();
    assert_eq!(kind(service().validate("invalid", &store, NOW)), "revoked");
    assert_eq!(kind(service().validate("invalid", &store, NOW + 600)), "malformed");
}

#[test]
fn validate_signed_does_not_ask_the_list() {
    let token = service().issue(&email("a@example.com"), NOW).unwrap();
    let claims = service().validate_signed(&token.0, NOW).unwrap();
    assert_eq!(claims.sub, "a@example.com");
    assert_eq!(kind(service().validate_signed(&token.0, NOW + 600)), "expired");
    assert_eq!(kind(service().validate_signed("invalid", NOW)), "malformed");
}

#[test]
fn a_service_with_another_lifetime_issues_other_expiries() {
    let short = TokenService::new(b"secret".to_vec(), 1);
    let store = HashsetBannedTokenStore::new();
    let token = short.issue(&email("a@example.com"), NOW).unwrap();
    assert_eq!(short.validate(&token.0, &store, NOW).unwrap().exp, NOW + 1);
    assert_eq!(kind(short.validate(&token.0, &store, NOW + 1)), "expired");
    let never = TokenService::new(b"secret".to_vec(), 0);
    let token = never.issue(&email("a@example.com"), NOW).unwrap();
    assert_eq!(kind(never.validate(&token.0, &store, NOW)), "expired");
}

#[test]
fn token_errors_give_their_cause() {
    assert_eq!(TokenError::Expired.into_cause(), "the token has expired");
    assert_eq!(TokenError::BadSignature.into_cause(), "the signature does not match");
    assert_eq!(TokenError::Malformed.into_cause(), "the text is no token");
    assert_eq!(TokenError::Revoked.into_cause(), "the token is banned");
    assert_eq!(TokenError::UnexpectedError("connection refused".to_string()).into_cause(), "connection refused");
}
