use iam_platform::services::user::{new_refresh_token, refresh_token_from};
use iam_platform::auth::{
    generate_raw_key, hash_key, parse_authorization, require_user, ApiKeyRecord, AuthActor,
    AuthContext, BearerToken, Claims, ACCESS_TOKEN_LIFETIME_SECS,
};
use iam_platform::error::AppError;
use iam_platform::time::Timestamp;
use sha2::Digest;

fn key(org_id: u128, scopes: &[&str]) -> ApiKeyRecord {
    ApiKeyRecord { id: 77, org_id, scopes: scopes.iter().map(|s| s.to_string()).collect() }
}

#[test]
fn api_keys_cannot_reach_user_endpoints() {
    let ctx = AuthContext::ApiKey(key(1, &["member:add"]));
    assert!(matches!(require_user(&ctx), Err(AppError::Forbidden)));
    let user = AuthContext::User(Claims { sub: 42, exp: 0 });
    assert_eq!(require_user(&user).unwrap(), 42);
}

#[test]
fn actor_of_user_and_key() {
    let user = AuthContext::User(Claims { sub: 5, exp: 10 });
    assert_eq!(AuthActor::from_auth(&user), AuthActor { actor_id: 5, user_id: Some(5) });
    let k = AuthContext::ApiKey(key(1, &[]));
    assert_eq!(AuthActor::from_auth(&k), AuthActor { actor_id: 77, user_id: None });
}

#[test]
fn access_token_lives_fifteen_minutes() {
    let now = Timestamp::new(1_700_000_000, 5).unwrap();
    let c = Claims::issue(9, now);
    assert_eq!(c.sub, 9);
    assert_eq!(c.exp, 1_700_000_900);
    assert_eq!(ACCESS_TOKEN_LIFETIME_SECS, 900);
}

#[test]
fn authorization_header_is_read() {
    assert!(matches!(parse_authorization(None), Err(AppError::Unauthorized)));
    assert!(matches!(parse_authorization(Some("Basic abc")), Err(AppError::Unauthorized)));
    assert!(matches!(parse_authorization(Some("bearer abc")), Err(AppError::Unauthorized)));
    match parse_authorization(Some("Bearer iam_0011")) {
        Ok(BearerToken::ApiKey(k)) => assert_eq!(k, "iam_0011"),
        other => panic!("unexpected {:?}", other),
    }
    match parse_authorization(Some("Bearer eyJhbGciOi.x.y")) {
        Ok(BearerToken::Jwt(t)) => assert_eq!(t, "eyJhbGciOi.x.y"),
        other => panic!("unexpected {:?}", other),
    }
    match parse_authorization(Some("Bearer ")) {
        Ok(BearerToken::Jwt(t)) => assert_eq!(t, ""),
        other => panic!("unexpected {:?}", other),
    }
}

#[test]
fn generated_keys_have_the_key_shape_and_read_as_keys() {
    let k = generate_raw_key();
    assert_eq!(k.len(), 68);
    assert!(k.starts_with("iam_"));
    assert!(k[4..].chars().all(|c| c.is_ascii_hexdigit() && !c.is_ascii_uppercase()));
    let header = format!("Bearer {}", k);
    match parse_authorization(Some(&header)) {
        Ok(BearerToken::ApiKey(read)) => assert_eq!(read, k),
        other => panic!("unexpected {:?}", other),
    }
    assert_ne!(generate_raw_key(), k);
}

#[test]
fn key_hash_is_hex_of_sha256() {
    let h = hash_key("iam_abc");
    assert_eq!(h, hex::encode(sha2::Sha256::digest(b"iam_abc")));
    assert_eq!(
        hash_key(""),
        "e3b0c44298fc1c149afbf4c8996fb92427ae41e4649b934ca495991b7852b855"
    );
}

#[test]
fn claims_issued_now_expire_fifteen_minutes_later() {
    let (now, claims) = Claims::issue_now(42);
    let claims = claims.unwrap();
    assert_eq!(claims.sub, 42);
    assert_eq!(claims.exp as i64, now.secs() + ACCESS_TOKEN_LIFETIME_SECS);
}

#[test]
fn refresh_tokens_are_hex_of_the_digest_of_their_seed() {
    let seed = [7u8; 32];
    let token = refresh_token_from(&seed);
    assert_eq!(token, hex::encode(sha2::Sha256::digest(seed)));
    assert_ne!(token, hex::encode(seed));
    let fresh = new_refresh_token();
    assert_eq!(fresh.len(), 64);
    assert!(fresh.chars().all(|c| c.is_ascii_hexdigit() && !c.is_ascii_uppercase()));
    assert_ne!(fresh, new_refresh_token());
}
