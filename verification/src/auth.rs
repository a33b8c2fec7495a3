use vstd::prelude::*;
use vstd::string::*;
use crate::encoding::{hex_encode, is_lower_hex_char, lemma_lower_hex, lower_hex, random_bytes_32, sha256, sha256_digest};
use crate::error::AppError;
use crate::text::{has_prefix, rest_from, same_text, starts_with};
use crate::time::{current_time, Timestamp, MAX_UNIX_SECONDS};

verus! {

/// How long an access token lives, in seconds (fifteen minutes).
pub const ACCESS_TOKEN_LIFETIME_SECS: i64 = 900;

/// The claims of an access token: the user it was issued to and the second
/// (since the Unix epoch) at which it expires.
#[derive(Clone, Copy, Debug, PartialEq, Eq, Structural)]
pub struct Claims {
    pub sub: u128,
    pub exp: usize,
}

impl Claims {
    /// The claims of a token issued now to a user: it expires fifteen
    /// minutes from now.
    pub fn issue(user_id: u128, now: Timestamp) -> (c: Claims)
        requires
            now@.0 + ACCESS_TOKEN_LIFETIME_SECS <= MAX_UNIX_SECONDS,
        ensures
            c.sub == user_id,
            c.exp == (now@.0 + ACCESS_TOKEN_LIFETIME_SECS) as usize,
    {
        let secs = now.secs() + ACCESS_TOKEN_LIFETIME_SECS;
        Claims { sub: user_id, exp: secs as usize }
    }

    /// The claims of a token issued to a user at the current time: reads the
    /// clock and issues the claims, unless fifteen minutes from the instant
    /// read is past the last representable second (then `None`). The instant
    /// read comes back too.
    pub fn issue_now(user_id: u128) -> (r: (Timestamp, Option<Claims>))
        ensures
            r.0.is_clock_reading(),
            r.1 is Some <==> r.0@.0 + ACCESS_TOKEN_LIFETIME_SECS <= MAX_UNIX_SECONDS,
            r.1 matches Some(c) ==> c.sub == user_id && c.exp == (r.0@.0 + ACCESS_TOKEN_LIFETIME_SECS) as usize,
    {
        let now = current_time();
        if now.secs() <= MAX_UNIX_SECONDS - ACCESS_TOKEN_LIFETIME_SECS {
            (now, Some(Claims::issue(user_id, now)))
        } else {
            (now, None)
        }
    }
}

/// What an API key grants: the key, the organization it belongs to and the
/// names of the permissions in its scope.
#[derive(Clone, Debug)]
pub struct ApiKeyRecord {
    pub id: u128,
    pub org_id: u128,
    pub scopes: Vec<String>,
}

/// Who makes a request: a user signed in with an access token, or an API key.
#[derive(Clone, Debug)]
pub enum AuthContext {
    User(Claims),
    ApiKey(ApiKeyRecord),
}

/// The party that an operation is recorded against: the user or the API key,
/// and the user when there is one.
#[derive(Clone, Copy, Debug, PartialEq, Eq, Structural)]
pub struct AuthActor {
    pub actor_id: u128,
    pub user_id: Option<u128>,
}

/// The actor that a request context stands for.
pub open spec fn actor_of(auth: AuthContext) -> AuthActor {
    match auth {
        AuthContext::User(claims) => AuthActor { actor_id: claims.sub, user_id: Some(claims.sub) },
        AuthContext::ApiKey(key) => AuthActor { actor_id: key.id, user_id: None },
    }
}

impl AuthActor {
    /// The actor of a request: a user acts as themself, an API key acts as the
    /// key and has no user.
    pub fn from_auth(auth: &AuthContext) -> (actor: AuthActor)
        ensures
            actor == actor_of(*auth),
    {
        match auth {
            AuthContext::User(claims) => AuthActor { actor_id: claims.sub, user_id: Some(claims.sub) },
            AuthContext::ApiKey(key) => AuthActor { actor_id: key.id, user_id: None },
        }
    }
}

/// The user behind a request; requests made with an API key are refused, so
/// API keys cannot reach user-only endpoints.
pub fn require_user(auth: &AuthContext) -> (r: Result<u128, AppError>)
    ensures
        match *auth {
            AuthContext::User(claims) => r == Ok::<u128, AppError>(claims.sub),
            AuthContext::ApiKey(_) => r matches Err(e) && e is Forbidden,
        },
{
    match auth {
        AuthContext::User(claims) => Ok(claims.sub),
        AuthContext::ApiKey(_) => Err(AppError::Forbidden),
    }
}

/// The names of the permissions in the scope of an API key.
pub open spec fn scope_names(key: ApiKeyRecord) -> Seq<Seq<char>> {
    key.scopes@.map_values(|s: String| s@)
}

/// Whether an API key's scope names a permission.
pub fn scope_contains(key: &ApiKeyRecord, permission: &str) -> (b: bool)
    ensures
        b == scope_names(*key).contains(permission@),
{
    let n = key.scopes.len();
    let mut i: usize = 0;
    while i < n
        invariant
            n == key.scopes@.len(),
            i <= n,
            forall|j: int| 0 <= j < i ==> key.scopes@[j]@ != permission@,
        decreases n - i,
    {
        if same_text(key.scopes[i].as_str(), permission) {
            assert(scope_names(*key)[i as int] == permission@);
            return true;
        }
        i = i + 1;
    }
    assert forall|j: int| 0 <= j < scope_names(*key).len() implies scope_names(*key)[j] != permission@ by {
        assert(key.scopes@[j]@ != permission@);
    }
    false
}

/// The credential carried by an `Authorization: Bearer` header.
#[derive(Clone, Debug)]
pub enum BearerToken {
    /// A raw API key (it starts with `iam_`).
    ApiKey(String),
    /// Anything else, taken for an access token.
    Jwt(String),
}

/// The prefix of every API key.
pub open spec fn api_key_prefix() -> Seq<char> {
    seq!['i', 'a', 'm', '_']
}

/// The scheme that an authorization header starts with.
pub open spec fn bearer_prefix() -> Seq<char> {
    seq!['B', 'e', 'a', 'r', 'e', 'r', ' ']
}

/// What an authorization header carries: `None` without the bearer scheme,
/// otherwise the token and whether it is an API key.
pub open spec fn bearer_token(header: Seq<char>) -> Option<(bool, Seq<char>)> {
    if has_prefix(header, bearer_prefix()) {
        let token = header.subrange(bearer_prefix().len() as int, header.len() as int);
        Some((has_prefix(token, api_key_prefix()), token))
    } else {
        None
    }
}

/// Reads the credential of a request from its authorization header: without a
/// header, or without the `Bearer ` scheme, the request is unauthorized; a
/// token that starts with `iam_` is an API key, anything else an access token.
pub fn parse_authorization(header: Option<&str>) -> (r: Result<BearerToken, AppError>)
    ensures
        match header {
            None => r matches Err(e) && e is Unauthorized,
            Some(h) => match bearer_token(h@) {
                None => r matches Err(e) && e is Unauthorized,
                Some((true, t)) => r matches Ok(BearerToken::ApiKey(k)) && k@ == t,
                Some((false, t)) => r matches Ok(BearerToken::Jwt(k)) && k@ == t,
            },
        },
{
    let h = match header {
        None => return Err(AppError::Unauthorized),
        Some(h) => h,
    };
    let scheme = "Bearer ";
    proof {
        reveal_strlit("Bearer ");
    }
    assert(scheme@ =~= bearer_prefix());
    if !starts_with(h, scheme) {
        return Err(AppError::Unauthorized);
    }
    let token = rest_from(h, 7);
    let key_prefix = "iam_";
    proof {
        reveal_strlit("iam_");
    }
    assert(key_prefix@ =~= api_key_prefix());
    if starts_with(token.as_str(), key_prefix) {
        Ok(BearerToken::ApiKey(token))
    } else {
        Ok(BearerToken::Jwt(token))
    }
}

/// The shape of a raw API key: `iam_` and 64 lowercase hexadecimal digits.
pub open spec fn is_raw_api_key(key: Seq<char>) -> bool {
    &&& key.len() == 68
    &&& has_prefix(key, api_key_prefix())
    &&& forall|i: int| 4 <= i < 68 ==> is_lower_hex_char(#[trigger] key[i])
}

/// A new raw API key: `iam_` followed by 32 random bytes in hexadecimal.
pub fn generate_raw_key() -> (key: String)
    ensures
        is_raw_api_key(key@),
{
    let bytes = random_bytes_32();
    let digits = hex_encode(bytes.as_slice());
    proof {
        lemma_lower_hex(bytes@);
    }
    let key = String::from_str("iam_");
    proof {
        reveal_strlit("iam_");
    }
    let key = key.concat(digits.as_str());
    assert(key@.subrange(0, 4) =~= api_key_prefix());
    assert forall|i: int| 4 <= i < 68 implies is_lower_hex_char(#[trigger] key@[i]) by {
        assert(key@[i] == digits@[i - 4]);
    }
    key
}

/// The stored form of an API key: lowercase hexadecimal of the SHA-256
/// digest of its UTF-8 bytes.
pub open spec fn key_hash_of(raw_key: Seq<char>) -> Seq<char> {
    lower_hex(sha256_digest(vstd::utf8::encode_utf8(raw_key)))
}

/// Hashes a raw API key for storage and lookup.
pub fn hash_key(raw_key: &str) -> (h: String)
    ensures
        h@ == key_hash_of(raw_key@),
{
    let digest = sha256(raw_key.as_bytes());
    hex_encode(digest.as_slice())
}

/// A key that the service generates is read back from an authorization
/// header as an API key, never as an access token.
pub proof fn generated_key_reads_as_api_key(key: Seq<char>)
    requires
        is_raw_api_key(key),
    ensures
        bearer_token(bearer_prefix() + key) == Some((true, key)),
{
    let h = bearer_prefix() + key;
    assert(h.subrange(0, 7) =~= bearer_prefix());
    assert(h.subrange(7, h.len() as int) =~= key);
}

} // verus!
