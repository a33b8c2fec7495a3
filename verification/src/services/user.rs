use vstd::prelude::*;
use vstd::string::*;
use crate::auth::ACCESS_TOKEN_LIFETIME_SECS;
use crate::encoding::{hex_encode, is_lower_hex_char, lemma_lower_hex, lower_hex, random_bytes_32, sha256, sha256_digest};
use crate::error::AppError;
use crate::flow::{fails_with, out_of_step, propagates_failure, Answer, Query, Step};
use crate::models::{Create, LoginReq, LoginRes};
use crate::password::{bcrypt_verification, hash_password, verify_password};
use crate::time::{current_time, Timestamp};

verus! {

/// The shape of a refresh token: 64 lowercase hexadecimal digits.
pub open spec fn is_refresh_token(t: Seq<char>) -> bool {
    t.len() == 64 && forall|i: int| 0 <= i < 64 ==> is_lower_hex_char(#[trigger] t[i])
}

/// The refresh token drawn from some bytes: the lowercase hexadecimal of
/// their SHA-256 digest.
pub open spec fn token_of(seed: Seq<u8>) -> Seq<char> {
    lower_hex(sha256_digest(seed))
}

/// Whether a text is the refresh token of some 32 bytes.
pub open spec fn is_drawn_token(t: Seq<char>) -> bool {
    exists|seed: Seq<u8>| seed.len() == 32 && #[trigger] token_of(seed) == t
}

/// The refresh token of some bytes: the SHA-256 digest of the bytes, in
/// hexadecimal (64 digits).
pub fn refresh_token_from(seed: &[u8]) -> (t: String)
    ensures
        t@ == token_of(seed@),
        is_refresh_token(t@),
{
    let digest = sha256(seed);
    proof {
        lemma_lower_hex(digest@);
    }
    hex_encode(digest.as_slice())
}

/// A new refresh token: the SHA-256 digest of 32 random bytes, in
/// hexadecimal.
pub fn new_refresh_token() -> (t: String)
    ensures
        is_drawn_token(t@),
        is_refresh_token(t@),
{
    let bytes = random_bytes_32();
    let t = refresh_token_from(bytes.as_slice());
    assert(token_of(bytes@) == t@);
    t
}

/// Registering an account.
#[derive(Clone, Debug)]
pub enum Registering {
    /// Waiting to learn whether an account uses the email.
    CheckingEmail { email: String, password: String, name: String },
    /// Waiting for the account to be stored.
    Creating,
}

/// Registers an account: first asks whether an account uses the email.
pub fn register(req: Create) -> (r: Step<Registering, ()>)
    ensures
        r == Step::<Registering, ()>::Ask(
            Registering::CheckingEmail { email: req.email, password: req.password, name: req.name },
            Query::CheckEmail { email: req.email },
        ),
{
    let q = Query::CheckEmail { email: req.email.clone() };
    Step::Ask(Registering::CheckingEmail { email: req.email, password: req.password, name: req.name }, q)
}

impl Registering {
    /// Goes on with an answer: an email in use is a conflict; otherwise the
    /// account is stored with a bcrypt hash of the password: 60 characters,
    /// and one that the password verifies against.
    pub fn resume(self, answer: Answer) -> (r: Step<Registering, ()>)
        ensures
            propagates_failure(r, answer),
            match self {
                Registering::CheckingEmail { email, password, name } => match answer {
                    Answer::Flag(true) => r matches Step::Finish(Err(AppError::Conflict(m))) && m@
                        == "Already Registerd"@,
                    Answer::Flag(false) => match r {
                        Step::Ask(s, Query::CreateUser { email: e, password_hash, name: n }) => {
                            &&& s is Creating
                            &&& e == email && n == name
                            &&& password_hash@.len() == 60
                            &&& bcrypt_verification(password@, password_hash@) == Some(true)
                        },
                        Step::Finish(Err(e)) => e is PassWordHashErr,
                        _ => false,
                    },
                    Answer::Failed(_) => true,
                    _ => fails_with(r, AppError::InternalServerError),
                },
                Registering::Creating => match answer {
                    Answer::Done => r == Step::<Registering, ()>::Finish(Ok(())),
                    Answer::Failed(_) => true,
                    _ => fails_with(r, AppError::InternalServerError),
                },
            },
    {
        match self {
            Registering::CheckingEmail { email, password, name } => match answer {
                Answer::Flag(true) => Step::Finish(Err(AppError::Conflict(String::from_str("Already Registerd")))),
                Answer::Flag(false) => match hash_password(password.as_str()) {
                    Ok(password_hash) => Step::Ask(Registering::Creating, Query::CreateUser { email, password_hash, name }),
                    Err(e) => Step::Finish(Err(e)),
                },
                Answer::Failed(e) => Step::Finish(Err(e)),
                _ => out_of_step(),
            },
            Registering::Creating => match answer {
                Answer::Done => Step::Finish(Ok(())),
                Answer::Failed(e) => Step::Finish(Err(e)),
                _ => out_of_step(),
            },
        }
    }
}

/// Signing in, or refreshing a sign-in.
#[derive(Clone, Debug)]
pub enum SigningIn {
    /// Waiting for the account with the email.
    FindingUser { password: String, ip: String, device: String },
    /// Waiting for the device's unrevoked session.
    FindingSession { user_id: u128, ip: String, device: String, refresh_token: String },
    /// Waiting for the session holding the refresh token that was presented.
    FindingRefreshSession { ip: String, now: Timestamp },
    /// Waiting for the session to be stored with the new refresh token.
    StoringSession { user_id: u128, refresh_token: String },
    /// Waiting for the access token.
    Issuing { refresh_token: String },
}

/// Signs a user in from a device and address: first asks for the account
/// with the email.
pub fn login(req: LoginReq, ip: String, device: String) -> (r: Step<SigningIn, LoginRes>)
    ensures
        r == Step::<SigningIn, LoginRes>::Ask(
            SigningIn::FindingUser { password: req.password, ip, device },
            Query::FindUserByEmail { email: req.email },
        ),
{
    Step::Ask(SigningIn::FindingUser { password: req.password, ip, device }, Query::FindUserByEmail { email: req.email })
}

/// Whether instant `a` comes strictly after instant `b`.
pub open spec fn is_after(a: (i64, u32), b: (i64, u32)) -> bool {
    a.0 > b.0 || (a.0 == b.0 && a.1 > b.1)
}

/// Whether a session can still be refreshed at `now`: it is not revoked and
/// has not expired.
pub open spec fn is_live_session(is_revoked: bool, expires_at: Timestamp, now: Timestamp) -> bool {
    !is_revoked && is_after(expires_at@, now@)
}

fn live_session(is_revoked: bool, expires_at: Timestamp, now: Timestamp) -> (b: bool)
    ensures
        b == is_live_session(is_revoked, expires_at, now),
{
    let (es, en) = (expires_at.secs(), expires_at.nanos());
    let (ns, nn) = (now.secs(), now.nanos());
    !is_revoked && (es > ns || (es == ns && en > nn))
}

/// Refreshes a sign-in with a refresh token: reads the clock, then asks for
/// the session that holds the token.
pub fn refresh(req: String, ip: String) -> (r: Step<SigningIn, LoginRes>)
    ensures
        r matches Step::Ask(SigningIn::FindingRefreshSession { ip: i, now }, q) && i == ip
            && now.is_clock_reading() && q == (Query::FindSessionByRefreshToken { refresh_token: req }),
{
    let now = current_time();
    Step::Ask(SigningIn::FindingRefreshSession { ip, now }, Query::FindSessionByRefreshToken { refresh_token: req })
}

impl SigningIn {
    /// Goes on with an answer. An unknown email, a password that does not
    /// verify, or a refresh token that no live session holds (none, or one
    /// that is revoked or expired at the instant read), is unauthorized.
    /// Otherwise a new refresh token (the hexadecimal SHA-256 digest of 32
    /// random bytes) is stored in the device's session (updated when it has
    /// one, created when not), or in the refreshed session, and an access
    /// token is issued; the answer carries both and the access token's
    /// lifetime, 900 seconds.
    pub fn resume(self, answer: Answer) -> (r: Step<SigningIn, LoginRes>)
        ensures
            propagates_failure(r, answer),
            match self {
                SigningIn::FindingUser { password, ip, device } => match answer {
                    Answer::Credentials { user_id, password_hash } => match bcrypt_verification(
                        password@,
                        password_hash@,
                    ) {
                        None => r matches Step::Finish(Err(e)) && e is PassWordHashErr,
                        Some(false) => fails_with(r, AppError::Unauthorized),
                        Some(true) => r matches Step::Ask(
                            SigningIn::FindingSession { user_id: u, ip: i, device: d, refresh_token },
                            Query::FindActiveSession { user_id: qu, device: qd },
                        ) && u == user_id && i == ip && d == device && qu == user_id && qd == device
                            && is_refresh_token(refresh_token@) && is_drawn_token(refresh_token@),
                    },
                    Answer::Missing => fails_with(r, AppError::Unauthorized),
                    Answer::Failed(_) => true,
                    _ => fails_with(r, AppError::InternalServerError),
                },
                SigningIn::FindingSession { user_id, ip, device, refresh_token } => match answer {
                    Answer::MaybeId(Some(session_id)) => r == Step::<SigningIn, LoginRes>::Ask(
                        SigningIn::StoringSession { user_id, refresh_token },
                        Query::UpdateSession { session_id, refresh_token, ip },
                    ),
                    Answer::MaybeId(None) => r == Step::<SigningIn, LoginRes>::Ask(
                        SigningIn::StoringSession { user_id, refresh_token },
                        Query::CreateSession { user_id, device, ip, refresh_token },
                    ),
                    Answer::Failed(_) => true,
                    _ => fails_with(r, AppError::InternalServerError),
                },
                SigningIn::FindingRefreshSession { ip, now } => match answer {
                    Answer::SessionOwner { session_id, user_id, is_revoked, expires_at } => if is_live_session(
                        is_revoked,
                        expires_at,
                        now,
                    ) {
                        r matches Step::Ask(
                            SigningIn::StoringSession { user_id: u, refresh_token },
                            Query::UpdateSession { session_id: s, refresh_token: t, ip: i },
                        ) && u == user_id && s == session_id && t == refresh_token && i == ip
                            && is_refresh_token(refresh_token@) && is_drawn_token(refresh_token@)
                    } else {
                        fails_with(r, AppError::Unauthorized)
                    },
                    Answer::Missing => fails_with(r, AppError::Unauthorized),
                    Answer::Failed(_) => true,
                    _ => fails_with(r, AppError::InternalServerError),
                },
                SigningIn::StoringSession { user_id, refresh_token } => match answer {
                    Answer::Done => r == Step::<SigningIn, LoginRes>::Ask(
                        SigningIn::Issuing { refresh_token },
                        Query::IssueAccessToken { user_id },
                    ),
                    Answer::Failed(_) => true,
                    _ => fails_with(r, AppError::InternalServerError),
                },
                SigningIn::Issuing { refresh_token } => match answer {
                    Answer::Text(access_token) => r == Step::<SigningIn, LoginRes>::Finish(
                        Ok(LoginRes { access_token, refresh_token, expires_in: ACCESS_TOKEN_LIFETIME_SECS }),
                    ),
                    Answer::Failed(_) => true,
                    _ => fails_with(r, AppError::InternalServerError),
                },
            },
    {
        match self {
            SigningIn::FindingUser { password, ip, device } => match answer {
                Answer::Credentials { user_id, password_hash } => match verify_password(
                    password.as_str(),
                    password_hash.as_str(),
                ) {
                    Err(e) => Step::Finish(Err(e)),
                    Ok(false) => Step::Finish(Err(AppError::Unauthorized)),
                    Ok(true) => {
                        let refresh_token = new_refresh_token();
                        let q = Query::FindActiveSession { user_id, device: device.clone() };
                        Step::Ask(SigningIn::FindingSession { user_id, ip, device, refresh_token }, q)
                    },
                },
                Answer::Missing => Step::Finish(Err(AppError::Unauthorized)),
                Answer::Failed(e) => Step::Finish(Err(e)),
                _ => out_of_step(),
            },
            SigningIn::FindingSession { user_id, ip, device, refresh_token } => match answer {
                Answer::MaybeId(Some(session_id)) => {
                    let q = Query::UpdateSession { session_id, refresh_token: refresh_token.clone(), ip };
                    Step::Ask(SigningIn::StoringSession { user_id, refresh_token }, q)
                },
                Answer::MaybeId(None) => {
                    let q = Query::CreateSession { user_id, device, ip, refresh_token: refresh_token.clone() };
                    Step::Ask(SigningIn::StoringSession { user_id, refresh_token }, q)
                },
                Answer::Failed(e) => Step::Finish(Err(e)),
                _ => out_of_step(),
            },
            SigningIn::FindingRefreshSession { ip, now } => match answer {
                Answer::SessionOwner { session_id, user_id, is_revoked, expires_at } => {
                    if !live_session(is_revoked, expires_at, now) {
                        return Step::Finish(Err(AppError::Unauthorized));
                    }
                    let refresh_token = new_refresh_token();
                    let q = Query::UpdateSession { session_id, refresh_token: refresh_token.clone(), ip };
                    Step::Ask(SigningIn::StoringSession { user_id, refresh_token }, q)
                },
                Answer::Missing => Step::Finish(Err(AppError::Unauthorized)),
                Answer::Failed(e) => Step::Finish(Err(e)),
                _ => out_of_step(),
            },
            SigningIn::StoringSession { user_id, refresh_token } => match answer {
                Answer::Done => Step::Ask(SigningIn::Issuing { refresh_token }, Query::IssueAccessToken { user_id }),
                Answer::Failed(e) => Step::Finish(Err(e)),
                _ => out_of_step(),
            },
            SigningIn::Issuing { refresh_token } => match answer {
                Answer::Text(access_token) => Step::Finish(
                    Ok(LoginRes { access_token, refresh_token, expires_in: ACCESS_TOKEN_LIFETIME_SECS }),
                ),
                Answer::Failed(e) => Step::Finish(Err(e)),
                _ => out_of_step(),
            },
        }
    }
}

} // verus!
