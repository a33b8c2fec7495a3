use vstd::prelude::*;
use vstd::string::*;
use crate::auth::{
    actor_of, bearer_token, hash_key, key_hash_of, parse_authorization, scope_contains,
    scope_names, ApiKeyRecord, AuthActor, AuthContext, BearerToken,
};
use crate::error::AppError;
use crate::flow::{fails_with, out_of_step, Answer, Query, Step};

verus! {

/// Resolving an actor that waits for the permission check of its user.
#[derive(Clone, Copy, Debug)]
pub struct ResolveActor {
    pub actor: AuthActor,
}

/// Whether an API key may act in an organization: the key belongs to it and,
/// when a permission is required, its scope names that permission.
pub open spec fn api_key_allowed(key: ApiKeyRecord, required: Option<Seq<char>>, org_id: u128) -> bool {
    &&& key.org_id == org_id
    &&& match required {
        Some(p) => scope_names(key).contains(p),
        None => true,
    }
}

/// The view of an optional text.
pub open spec fn opt_view(s: Option<&str>) -> Option<Seq<char>> {
    match s {
        Some(t) => Some(t@),
        None => None,
    }
}

/// Resolves who acts in an organization and checks that they may. A user
/// needs the required permission in the organization, which is asked of the
/// database; an API key must belong to the organization and have the required
/// permission in its scope; otherwise the request is forbidden.
pub fn resolver_actor(auth: &AuthContext, required_permission: Option<&str>, org_id: u128) -> (r: Step<
    ResolveActor,
    AuthActor,
>)
    ensures
        match *auth {
            AuthContext::User(claims) => match required_permission {
                Some(p) => r matches Step::Ask(s, Query::CheckPermission { user_id, org_id: o, permission })
                    && s.actor == actor_of(*auth) && user_id == claims.sub && o == org_id
                    && permission@ == p@,
                None => r == Step::<ResolveActor, AuthActor>::Finish(Ok(actor_of(*auth))),
            },
            AuthContext::ApiKey(key) => if api_key_allowed(key, opt_view(required_permission), org_id) {
                r == Step::<ResolveActor, AuthActor>::Finish(Ok(actor_of(*auth)))
            } else {
                fails_with(r, AppError::Forbidden)
            },
        },
{
    let actor = AuthActor::from_auth(auth);
    match auth {
        AuthContext::User(claims) => match required_permission {
            Some(p) => Step::Ask(
                ResolveActor { actor },
                Query::CheckPermission {
                    user_id: claims.sub,
                    org_id,
                    permission: String::from_str(p),
                },
            ),
            None => Step::Finish(Ok(actor)),
        },
        AuthContext::ApiKey(key) => {
            if key.org_id != org_id {
                return Step::Finish(Err(AppError::Forbidden));
            }
            match required_permission {
                Some(p) => {
                    if !scope_contains(key, p) {
                        return Step::Finish(Err(AppError::Forbidden));
                    }
                },
                None => {},
            }
            Step::Finish(Ok(actor))
        },
    }
}

impl ResolveActor {
    /// Goes on with the answer to the permission check: granted, the actor
    /// acts; refused, the request is forbidden.
    pub fn resume(self, answer: Answer) -> (r: Step<ResolveActor, AuthActor>)
        ensures
            match answer {
                Answer::Flag(true) => r == Step::<ResolveActor, AuthActor>::Finish(Ok(self.actor)),
                Answer::Flag(false) => fails_with(r, AppError::Forbidden),
                Answer::Failed(e) => fails_with(r, e),
                _ => fails_with(r, AppError::InternalServerError),
            },
    {
        match answer {
            Answer::Flag(true) => Step::Finish(Ok(self.actor)),
            Answer::Flag(false) => Step::Finish(Err(AppError::Forbidden)),
            Answer::Failed(e) => Step::Finish(Err(e)),
            _ => out_of_step(),
        }
    }
}

/// Authenticating a request that waits for its credential to be checked.
#[derive(Clone, Copy, Debug, PartialEq, Eq, Structural)]
pub enum Authenticating {
    /// Looking up an API key by its hash.
    ApiKey,
    /// Verifying an access token.
    AccessToken,
}

/// Starts authenticating a request from its authorization header. Without a
/// bearer credential the request is unauthorized; an API key is looked up by
/// its hash; anything else is verified as an access token.
pub fn auth(header: Option<&str>) -> (r: Step<Authenticating, AuthContext>)
    ensures
        match header {
            None => fails_with(r, AppError::Unauthorized),
            Some(h) => match bearer_token(h@) {
                None => fails_with(r, AppError::Unauthorized),
                Some((true, t)) => r matches Step::Ask(Authenticating::ApiKey, Query::ValidateApiKey { key_hash })
                    && key_hash@ == key_hash_of(t),
                Some((false, t)) => r matches Step::Ask(Authenticating::AccessToken, Query::VerifyAccessToken { token })
                    && token@ == t,
            },
        },
{
    match parse_authorization(header) {
        Err(_) => Step::Finish(Err(AppError::Unauthorized)),
        Ok(BearerToken::ApiKey(key)) => Step::Ask(
            Authenticating::ApiKey,
            Query::ValidateApiKey { key_hash: hash_key(key.as_str()) },
        ),
        Ok(BearerToken::Jwt(token)) => Step::Ask(Authenticating::AccessToken, Query::VerifyAccessToken { token }),
    }
}

impl Authenticating {
    /// Goes on with the checked credential. A key that is not found, or
    /// cannot be looked up, ends the request with a database error; a token
    /// that does not verify leaves it unauthorized.
    pub fn resume(self, answer: Answer) -> (r: Step<Authenticating, AuthContext>)
        ensures
            match self {
                Authenticating::ApiKey => match answer {
                    Answer::ApiKey(key) => r == Step::<Authenticating, AuthContext>::Finish(
                        Ok(AuthContext::ApiKey(key)),
                    ),
                    Answer::Missing => fails_with(r, AppError::Database),
                    Answer::Failed(_) => fails_with(r, AppError::Database),
                    _ => fails_with(r, AppError::InternalServerError),
                },
                Authenticating::AccessToken => match answer {
                    Answer::TokenClaims(claims) => r == Step::<Authenticating, AuthContext>::Finish(
                        Ok(AuthContext::User(claims)),
                    ),
                    Answer::Failed(_) => fails_with(r, AppError::Unauthorized),
                    _ => fails_with(r, AppError::InternalServerError),
                },
            },
    {
        match self {
            Authenticating::ApiKey => match answer {
                Answer::ApiKey(key) => Step::Finish(Ok(AuthContext::ApiKey(key))),
                Answer::Missing => Step::Finish(Err(AppError::Database)),
                Answer::Failed(_) => Step::Finish(Err(AppError::Database)),
                _ => out_of_step(),
            },
            Authenticating::AccessToken => match answer {
                Answer::TokenClaims(claims) => Step::Finish(Ok(AuthContext::User(claims))),
                Answer::Failed(_) => Step::Finish(Err(AppError::Unauthorized)),
                _ => out_of_step(),
            },
        }
    }
}

} // verus!
