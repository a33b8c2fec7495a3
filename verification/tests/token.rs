use iam_platform::auth::Claims;
use iam_platform::error::AppError;
use iam_platform::text::{device_name, forwarded_address};
use iam_platform::time::current_time;
use iam_platform::token::{create_token, sign_claims, verify_token};

const USER: u128 = 0x5f1e_0c3a_9b2d_4e6f_8a1b_2c3d_4e5f_6a7b;

#[test]
fn test_create_and_verify_token() {
    let secret = b"test-secrect-key";
    let token = create_token(USER, secret).unwrap();
    let claims = verify_token(&token, secret).unwrap();
    assert_eq!(claims.sub, USER);
}

#[test]
fn test_verify_invalid_token_fails() {
    let res = verify_token("this.is.not.a.valid.token", b"test-secrect-key");
    assert!(res.is_err());
}

#[test]
fn test_verify_tamperd_token_fails() {
    let secret = b"test-secrect-key";
    let token = create_token(USER, secret).unwrap();
    let tamperd = format!("{}extra", token);
    assert!(verify_token(&tamperd, secret).is_err());
}

#[test]
fn test_token_with_wrong_secrect_fails() {
    let token = create_token(USER, b"test-secrect-key1").unwrap();
    assert!(verify_token(&token, b"test-secrect-key2").is_err());
}

#[test]
fn signed_claims_come_back_exactly() {
    let exp = (current_time().secs() + 900) as usize;
    let token = sign_claims(&Claims { sub: USER, exp }, b"k").unwrap();
    assert_eq!(verify_token(&token, b"k").unwrap(), Claims { sub: USER, exp });
}

#[test]
fn expired_tokens_are_refused() {
    let exp = (current_time().secs() - 3_600) as usize;
    let token = sign_claims(&Claims { sub: USER, exp }, b"k").unwrap();
    assert!(matches!(verify_token(&token, b"k"), Err(AppError::Unauthorized)));
}

#[test]
fn issued_tokens_expire_fifteen_minutes_later() {
    let before = current_time().secs();
    let claims = verify_token(&create_token(USER, b"k").unwrap(), b"k").unwrap();
    assert!(claims.exp as i64 >= before + 900 && claims.exp as i64 <= current_time().secs() + 900);
}

#[test]
fn request_headers_name_device_and_address() {
    assert_eq!(device_name(Some("curl/8.0")), "curl/8.0");
    assert_eq!(device_name(None), "Unknown Device");
    assert_eq!(forwarded_address(Some("10.1.2.3, 192.168.0.1")), "10.1.2.3");
    assert_eq!(forwarded_address(Some("10.1.2.3")), "10.1.2.3");
    assert_eq!(forwarded_address(Some(",x")), "");
    assert_eq!(forwarded_address(None), "0.0.0.0");
}
