use vstd::prelude::*;
use crate::auth::{Claims, ACCESS_TOKEN_LIFETIME_SECS};
use crate::error::AppError;
use crate::time::{current_time, Timestamp, MIN_UNIX_SECONDS};

verus! {

/// The subject and expiry that `jsonwebtoken::decode`, with the default
/// validation (HS256, `exp` required), reads from a token signed with a
/// secret, leaving aside its check of the expiry against the clock: `None`
/// where the token is malformed, its signature does not verify under the
/// secret, `exp` is missing, or the claims are not a UUID subject and an
/// unsigned expiry.
pub uninterp spec fn hs256_claims(token: Seq<char>, secret: Seq<u8>) -> Option<(u128, usize)>;

/// Signs claims with `jsonwebtoken::encode` under the default header
/// (HS256), the subject written as a hyphenated UUID and the expiry as a
/// number. Claimed: a token that comes back decodes under the same secret
/// to the same subject and expiry (the signature is the HMAC of the secret
/// over the encoded header and claims, which decoding recomputes; no
/// audience is written, so none is checked).
#[verifier::external_body]
fn jwt_encode(claims: &Claims, secret: &[u8]) -> (t: Option<String>)
    ensures
        t matches Some(s) ==> hs256_claims(s@, secret@) == Some((claims.sub, claims.exp)),
{
    let mut body = serde_json::Map::new();
    body.insert("sub".to_string(), serde_json::to_value(uuid::Uuid::from_u128(claims.sub)).ok()?);
    body.insert("exp".to_string(), serde_json::Value::from(claims.exp));
    let key = jsonwebtoken::EncodingKey::from_secret(secret);
    jsonwebtoken::encode(&jsonwebtoken::Header::default(), &body, &key).ok()
}

/// Decodes a token with `jsonwebtoken::decode` under the default validation
/// with its expiry check turned off (HS256, `exp` still required), and reads
/// its subject as a UUID and its expiry as a number. Claimed: the result is
/// exactly the named claims.
#[verifier::external_body]
fn jwt_decode(token: &str, secret: &[u8]) -> (r: Option<Claims>)
    ensures
        match hs256_claims(token@, secret@) {
            Some((sub, exp)) => r == Some(Claims { sub, exp }),
            None => r is None,
        },
{
    let key = jsonwebtoken::DecodingKey::from_secret(secret);
    let mut validation = jsonwebtoken::Validation::default();
    validation.validate_exp = false;
    let data = jsonwebtoken::decode::<serde_json::Map<String, serde_json::Value>>(token, &key, &validation).ok()?;
    let mut body = data.claims;
    let sub: uuid::Uuid = serde_json::from_value(body.remove("sub")?).ok()?;
    let exp: usize = serde_json::from_value(body.remove("exp")?).ok()?;
    Some(Claims { sub: sub.as_u128(), exp })
}

/// Signs claims into an access token under a secret. A token that comes
/// back carries exactly these claims; a failure of the signer leaves the
/// request unauthorized.
pub fn sign_claims(claims: &Claims, secret: &[u8]) -> (r: Result<String, AppError>)
    ensures
        r matches Ok(t) ==> hs256_claims(t@, secret@) == Some((claims.sub, claims.exp)),
        r matches Err(e) ==> e is Unauthorized,
{
    match jwt_encode(claims, secret) {
        Some(t) => Ok(t),
        None => Err(AppError::Unauthorized),
    }
}

/// Whether an expiry is fifteen minutes after a reading of the clock.
pub open spec fn is_token_expiry(exp: usize) -> bool {
    exists|now: Timestamp|
        now.is_clock_reading() && MIN_UNIX_SECONDS <= now@.0 && #[trigger] ((now@.0 + ACCESS_TOKEN_LIFETIME_SECS) as usize) == exp
}

/// A signed access token for a user, issued now to expire fifteen minutes
/// from now. Where fifteen minutes from the instant read is past the last
/// representable second, the error is an internal one.
pub fn create_token(user_id: u128, secret: &[u8]) -> (r: Result<String, AppError>)
    ensures
        r matches Ok(t) ==> (hs256_claims(t@, secret@) matches Some((sub, exp)) && sub == user_id
            && is_token_expiry(exp)),
        r matches Err(e) ==> (e is Unauthorized || e is InternalServerError),
{
    let (now, claims) = Claims::issue_now(user_id);
    match claims {
        Some(c) => {
            let secs = now.secs();
            assert(((secs + ACCESS_TOKEN_LIFETIME_SECS) as usize) == c.exp);
            assert(is_token_expiry(c.exp));
            sign_claims(&c, secret)
        },
        None => Err(AppError::InternalServerError),
    }
}

/// How many seconds past its expiry a token is still accepted (the leeway of
/// `jsonwebtoken`'s default validation).
pub const EXPIRY_LEEWAY_SECS: i64 = 60;

/// Whether a token that expires at `exp` is still accepted at `now`: its
/// expiry, plus the leeway, is not before the second of `now`.
pub open spec fn unexpired(exp: usize, now: (i64, u32)) -> bool {
    exp + EXPIRY_LEEWAY_SECS >= now.0
}

/// What verifying a token at an instant answers: the claims it carries when
/// they verify under the secret and have not expired at that instant,
/// unauthorized otherwise.
pub open spec fn verdict_at(token: Seq<char>, secret: Seq<u8>, now: Timestamp, r: Result<Claims, AppError>) -> bool {
    &&& match hs256_claims(token, secret) {
        Some((sub, exp)) => unexpired(exp, now@) ==> r == Ok::<Claims, AppError>(Claims { sub, exp }),
        None => true,
    }
    &&& r matches Ok(c) ==> hs256_claims(token, secret) == Some((c.sub, c.exp)) && unexpired(c.exp, now@)
    &&& r matches Err(e) ==> e is Unauthorized
}

/// Verifies an access token under a secret at an instant: the claims it
/// carries when they verify and have not expired at that instant (60 seconds
/// of leeway), unauthorized otherwise.
pub fn verify_token_at(token: &str, secret: &[u8], now: Timestamp) -> (r: Result<Claims, AppError>)
    ensures
        verdict_at(token@, secret@, now, r),
{
    match jwt_decode(token, secret) {
        Some(c) => {
            if (c.exp as i128) + (EXPIRY_LEEWAY_SECS as i128) >= (now.secs() as i128) {
                Ok(c)
            } else {
                Err(AppError::Unauthorized)
            }
        },
        None => Err(AppError::Unauthorized),
    }
}

/// Verifies an access token under a secret, now: the verdict of
/// `verify_token_at` at a reading of the clock. A token whose claims do not
/// verify is always refused.
pub fn verify_token(token: &str, secret: &[u8]) -> (r: Result<Claims, AppError>)
    ensures
        exists|now: Timestamp| now.is_clock_reading() && #[trigger] verdict_at(token@, secret@, now, r),
        r matches Ok(c) ==> hs256_claims(token@, secret@) == Some((c.sub, c.exp)),
        hs256_claims(token@, secret@) is None ==> r is Err,
        r matches Err(e) ==> e is Unauthorized,
{
    let now = current_time();
    let r = verify_token_at(token, secret, now);
    assert(verdict_at(token@, secret@, now, r));
    r
}

/// A token that carries claims under a secret, checked under that secret at
/// an instant at which its expiry (with the leeway) has not passed, is
/// accepted with exactly those claims; checked once it has passed, it is
/// refused.
pub proof fn unexpired_tokens_are_accepted(
    token: Seq<char>,
    secret: Seq<u8>,
    claims: Claims,
    now: Timestamp,
    r: Result<Claims, AppError>,
)
    requires
        hs256_claims(token, secret) == Some((claims.sub, claims.exp)),
        verdict_at(token, secret, now, r),
    ensures
        claims.exp + EXPIRY_LEEWAY_SECS >= now@.0 ==> r == Ok::<Claims, AppError>(claims),
        claims.exp + EXPIRY_LEEWAY_SECS < now@.0 ==> r matches Err(AppError::Unauthorized),
{
}

/// A token verified under the secret it was signed with gives back the
/// claims it was signed with.
pub proof fn verified_claims_are_the_signed_ones(token: Seq<char>, secret: Seq<u8>, signed: Claims, read: Claims)
    requires
        hs256_claims(token, secret) == Some((signed.sub, signed.exp)),
        hs256_claims(token, secret) == Some((read.sub, read.exp)),
    ensures
        read == signed,
{
}

} // verus!
