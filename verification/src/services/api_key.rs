use vstd::prelude::*;
use vstd::string::*;
use crate::auth::{generate_raw_key, hash_key, is_raw_api_key, key_hash_of};
use crate::error::AppError;
use crate::flow::{fails_with, out_of_step, propagates_failure, Answer, Query, Step};
use crate::models::{ApiKeyListItem, CreateApiKeyResponse};
use crate::time::{current_time, representable, Timestamp};

verus! {

/// How long an API key lives when no lifetime is asked for, in days.
pub const DEFAULT_KEY_LIFETIME_DAYS: i64 = 30;

/// The lifetime in days that a request settles on.
pub open spec fn key_lifetime_days(expires_in_days: Option<i64>) -> int {
    match expires_in_days {
        Some(d) => d as int,
        None => DEFAULT_KEY_LIFETIME_DAYS as int,
    }
}

/// Whether a key created at `now` to live that many days expires at an
/// instant that a date-time can hold (the service cannot create it
/// otherwise).
pub open spec fn expiry_in_range(now: Timestamp, expires_in_days: Option<i64>) -> bool {
    representable_int(now@.0 + key_lifetime_days(expires_in_days) * 86400, now@.1)
}

/// `representable`, for seconds held as an integer.
pub open spec fn representable_int(secs: int, nanos: u32) -> bool {
    i64::MIN <= secs <= i64::MAX && representable(secs as i64, nanos)
}

/// Creating an API key.
#[derive(Clone, Debug)]
pub enum CreatingApiKey {
    /// Waiting to learn whether the user may create keys.
    CheckingPermission {
        org_id: u128,
        name: String,
        permission_ids: Vec<u128>,
        now: Timestamp,
        expires_in_days: Option<i64>,
    },
    /// Waiting for the key to be stored.
    Inserting { raw_key: String },
}

/// The permission a user needs to create API keys.
pub open spec fn create_key_permission() -> Seq<char> {
    "api_key:create"@
}

/// The permission a user needs to list API keys.
pub open spec fn read_key_permission() -> Seq<char> {
    "api_key:read"@
}

/// How creating an API key starts: the user's right to create keys is
/// asked, and the request waits with everything the key is made from.
pub open spec fn starts_key_creation(
    r: Step<CreatingApiKey, CreateApiKeyResponse>,
    user_id: u128,
    org_id: u128,
    api_name: String,
    permission_ids: Vec<u128>,
    api_expires_at: Option<i64>,
    now: Timestamp,
) -> bool {
    r matches Step::Ask(s, Query::CheckPermission { user_id: u, org_id: o, permission }) && u == user_id
        && o == org_id && permission@ == create_key_permission() && s == (CreatingApiKey::CheckingPermission {
        org_id,
        name: api_name,
        permission_ids,
        now,
        expires_in_days: api_expires_at,
    })
}

/// Creates an API key of an organization, at `now`, to live the days asked
/// for (30 by default): first asks whether the user may create keys.
pub fn create_api_key_service(
    user_id: u128,
    org_id: u128,
    api_name: String,
    permission_ids: Vec<u128>,
    api_expires_at: Option<i64>,
    now: Timestamp,
) -> (r: Step<CreatingApiKey, CreateApiKeyResponse>)
    requires
        expiry_in_range(now, api_expires_at),
    ensures
        starts_key_creation(r, user_id, org_id, api_name, permission_ids, api_expires_at, now),
{
    Step::Ask(
        CreatingApiKey::CheckingPermission { org_id, name: api_name, permission_ids, now, expires_in_days: api_expires_at },
        Query::CheckPermission { user_id, org_id, permission: String::from_str("api_key:create") },
    )
}

/// Whether a key created at `now` to live the days asked for (30 by
/// default) expires within the range of date-times.
pub fn expiry_fits(now: Timestamp, expires_in_days: Option<i64>) -> (b: bool)
    ensures
        b == expiry_in_range(now, expires_in_days),
{
    let days = match expires_in_days {
        Some(d) => d,
        None => DEFAULT_KEY_LIFETIME_DAYS,
    };
    let secs = now.secs();
    match days.checked_mul(86400) {
        None => false,
        Some(shift) => match secs.checked_add(shift) {
            None => false,
            Some(end) => Timestamp::new(end, now.nanos()).is_some(),
        },
    }
}

/// Creates an API key as of the current time: reads the clock and, when a
/// key created at that instant to live the days asked for expires within the
/// range of date-times, starts creating it as `create_api_key_service` does.
/// The instant read, a reading of the clock from which the key's expiry is
/// counted, comes back with the step, which is `None` exactly when the expiry
/// is out of range.
pub fn create_api_key_now(
    user_id: u128,
    org_id: u128,
    api_name: String,
    permission_ids: Vec<u128>,
    api_expires_at: Option<i64>,
) -> (r: (Timestamp, Option<Step<CreatingApiKey, CreateApiKeyResponse>>))
    ensures
        r.0.is_clock_reading(),
        r.1 is Some <==> expiry_in_range(r.0, api_expires_at),
        r.1 matches Some(step) ==> starts_key_creation(
            step,
            user_id,
            org_id,
            api_name,
            permission_ids,
            api_expires_at,
            r.0,
        ),
{
    let now = current_time();
    if expiry_fits(now, api_expires_at) {
        (now, Some(create_api_key_service(user_id, org_id, api_name, permission_ids, api_expires_at, now)))
    } else {
        (now, None)
    }
}

/// The instant `days` days after `now`.
fn days_after(now: Timestamp, days: i64) -> (t: Timestamp)
    requires
        representable_int(now@.0 + days * 86400, now@.1),
    ensures
        t@.0 == now@.0 + days * 86400,
        t@.1 == now@.1,
{
    let secs = now.secs();
    let shift = days * 86400;
    match Timestamp::new(secs + shift, now.nanos()) {
        Some(t) => t,
        None => now,
    }
}

impl CreatingApiKey {
    /// Goes on with an answer. Without the right, creating is forbidden.
    /// With it, a new raw key (`iam_` and 64 hexadecimal digits) is made and
    /// only its hash is stored, with the scope and the expiry; the answer
    /// shows the raw key, this once.
    pub fn resume(self, answer: Answer) -> (r: Step<CreatingApiKey, CreateApiKeyResponse>)
        requires
            self matches CreatingApiKey::CheckingPermission { now, expires_in_days, .. } ==> expiry_in_range(
                now,
                expires_in_days,
            ),
        ensures
            propagates_failure(r, answer),
            match self {
                CreatingApiKey::CheckingPermission { org_id, name, permission_ids, now, expires_in_days } => match answer {
                    Answer::Flag(false) => fails_with(r, AppError::Forbidden),
                    Answer::Flag(true) => r matches Step::Ask(
                        CreatingApiKey::Inserting { raw_key },
                        Query::InsertApiKey { org_id: o, name: n, key_hash, permission_ids: p, expires_at },
                    ) && is_raw_api_key(raw_key@) && key_hash@ == key_hash_of(raw_key@) && o == org_id && n
                        == name && p == permission_ids && expires_at@.0 == now@.0 + key_lifetime_days(
                        expires_in_days,
                    ) * 86400 && expires_at@.1 == now@.1,
                    Answer::Failed(_) => true,
                    _ => fails_with(r, AppError::InternalServerError),
                },
                CreatingApiKey::Inserting { raw_key } => match answer {
                    Answer::CreatedKey(key) => r == Step::<CreatingApiKey, CreateApiKeyResponse>::Finish(
                        Ok(
                            CreateApiKeyResponse {
                                id: key.id,
                                name: key.name,
                                raw_key,
                                expires_at: key.expires_at,
                            },
                        ),
                    ),
                    Answer::Failed(_) => true,
                    _ => fails_with(r, AppError::InternalServerError),
                },
            },
    {
        match self {
            CreatingApiKey::CheckingPermission { org_id, name, permission_ids, now, expires_in_days } => match answer {
                Answer::Flag(false) => Step::Finish(Err(AppError::Forbidden)),
                Answer::Flag(true) => {
                    let raw_key = generate_raw_key();
                    let key_hash = hash_key(raw_key.as_str());
                    let days = match expires_in_days {
                        Some(d) => d,
                        None => DEFAULT_KEY_LIFETIME_DAYS,
                    };
                    let expires_at = days_after(now, days);
                    Step::Ask(
                        CreatingApiKey::Inserting { raw_key },
                        Query::InsertApiKey { org_id, name, key_hash, permission_ids, expires_at },
                    )
                },
                Answer::Failed(e) => Step::Finish(Err(e)),
                _ => out_of_step(),
            },
            CreatingApiKey::Inserting { raw_key } => match answer {
                Answer::CreatedKey(key) => Step::Finish(
                    Ok(CreateApiKeyResponse { id: key.id, name: key.name, raw_key, expires_at: key.expires_at }),
                ),
                Answer::Failed(e) => Step::Finish(Err(e)),
                _ => out_of_step(),
            },
        }
    }
}

/// Listing the API keys of an organization.
#[derive(Clone, Copy, Debug, PartialEq, Eq, Structural)]
pub enum ListingApiKeys {
    /// Waiting to learn whether the user may read keys.
    CheckingPermission { org_id: u128 },
    /// Waiting for the keys.
    Listing,
}

/// Lists the API keys of an organization: first asks whether the user may
/// read keys.
pub fn all_api_keys_service(user_id: u128, org_id: u128) -> (r: Step<ListingApiKeys, Vec<ApiKeyListItem>>)
    ensures
        r matches Step::Ask(s, Query::CheckPermission { user_id: u, org_id: o, permission }) && u == user_id
            && o == org_id && permission@ == read_key_permission() && s == (
        ListingApiKeys::CheckingPermission { org_id }),
{
    Step::Ask(
        ListingApiKeys::CheckingPermission { org_id },
        Query::CheckPermission { user_id, org_id, permission: String::from_str("api_key:read") },
    )
}

impl ListingApiKeys {
    /// Goes on with an answer: without the right, listing is forbidden;
    /// otherwise the keys are the result.
    pub fn resume(self, answer: Answer) -> (r: Step<ListingApiKeys, Vec<ApiKeyListItem>>)
        ensures
            propagates_failure(r, answer),
            match self {
                ListingApiKeys::CheckingPermission { org_id } => match answer {
                    Answer::Flag(false) => fails_with(r, AppError::Forbidden),
                    Answer::Flag(true) => r == Step::<ListingApiKeys, Vec<ApiKeyListItem>>::Ask(
                        ListingApiKeys::Listing,
                        Query::ListApiKeys { org_id },
                    ),
                    Answer::Failed(_) => true,
                    _ => fails_with(r, AppError::InternalServerError),
                },
                ListingApiKeys::Listing => match answer {
                    Answer::ApiKeys(keys) => r == Step::<ListingApiKeys, Vec<ApiKeyListItem>>::Finish(Ok(keys)),
                    Answer::Failed(_) => true,
                    _ => fails_with(r, AppError::InternalServerError),
                },
            },
    {
        match self {
            ListingApiKeys::CheckingPermission { org_id } => match answer {
                Answer::Flag(false) => Step::Finish(Err(AppError::Forbidden)),
                Answer::Flag(true) => Step::Ask(ListingApiKeys::Listing, Query::ListApiKeys { org_id }),
                Answer::Failed(e) => Step::Finish(Err(e)),
                _ => out_of_step(),
            },
            ListingApiKeys::Listing => match answer {
                Answer::ApiKeys(keys) => Step::Finish(Ok(keys)),
                Answer::Failed(e) => Step::Finish(Err(e)),
                _ => out_of_step(),
            },
        }
    }
}

} // verus!
