use vstd::prelude::*;
use crate::auth::{ApiKeyRecord, Claims};
use crate::error::AppError;
use crate::models::{ApiKeyListItem, AuditLogs, CreatedApiKey, Membership, Organization, Permission, Role, Session};
use crate::time::Timestamp;

verus! {

/// A piece of work that an operation needs from the database or from the
/// token issuer before it can go on.
#[derive(Clone, Debug)]
pub enum Query {
    /// Whether a user holds a permission (by name) in an organization.
    CheckPermission { user_id: u128, org_id: u128, permission: String },
    /// The record of the live, undeleted API key stored under a hash, or
    /// `Missing`.
    ValidateApiKey { key_hash: String },
    /// The claims of a signed access token, if its signature and expiry hold.
    VerifyAccessToken { token: String },
    /// A signed access token for a user.
    IssueAccessToken { user_id: u128 },
    /// Store a new organization created by a user; answers its id.
    InsertOrganization { name: String, created_by: u128 },
    /// Grant every permission there is to a role.
    GrantAllPermissions { role_id: u128 },
    /// Whether an account uses an email.
    CheckEmail { email: String },
    /// The id and password hash of the account with an email, or `Missing`.
    FindUserByEmail { email: String },
    /// Store a new account.
    CreateUser { email: String, password_hash: String, name: String },
    /// Whether a user is a member of an organization.
    CheckMembership { user_id: u128, org_id: u128 },
    /// Make a user a member of an organization.
    AddMember { org_id: u128, user_id: u128 },
    /// Remove a member, with the roles they hold there.
    DeleteMember { org_id: u128, user_id: u128 },
    /// The members of an organization.
    ListMembers { org_id: u128 },
    /// The name of the role a member holds in an organization, or `Missing`.
    MemberRole { org_id: u128, user_id: u128 },
    /// A role of an organization, by id.
    FindRole { org_id: u128, role_id: u128 },
    /// Whether an organization has a role whose name, in lowercase, is this.
    RoleExists { org_id: u128, name: String },
    /// Store a new role; answers its id.
    CreateRole { org_id: u128, name: String },
    /// Rename a role.
    UpdateRole { org_id: u128, role_id: u128, name: String },
    /// The roles of an organization.
    ListRoles { org_id: u128 },
    /// Whether any member holds a role.
    RoleInUse { role_id: u128 },
    /// Delete a role.
    DeleteRole { org_id: u128, role_id: u128 },
    /// Give a role to a member.
    AssignRole { role_id: u128, user_id: u128, org_id: u128 },
    /// Take a role from a member.
    DisassignRole { role_id: u128, user_id: u128, org_id: u128 },
    /// Grant permissions to a role.
    AssignPermissions { role_id: u128, permission_ids: Vec<u128> },
    /// Take permissions from a role.
    RemovePermissions { role_id: u128, permission_ids: Vec<u128> },
    /// Every permission there is.
    ListPermissions,
    /// The permissions of a role of an organization.
    RolePermissions { role_id: u128, org_id: u128 },
    /// Store a new API key with its scope.
    InsertApiKey {
        org_id: u128,
        name: String,
        key_hash: String,
        permission_ids: Vec<u128>,
        expires_at: Timestamp,
    },
    /// The API keys of an organization.
    ListApiKeys { org_id: u128 },
    /// A page of the audit-log entries recorded against an actor.
    UserAuditLogs { actor_id: u128, cursor: Option<Timestamp>, limit: i64, ascending: bool },
    /// A page of the audit-log entries whose resource starts with a prefix.
    OrgAuditLogs { resource_prefix: String, cursor: Option<Timestamp>, limit: i64, ascending: bool },
    /// A page of the organizations a user belongs to.
    UserOrganizations { user_id: u128, cursor: Option<Timestamp>, limit: i64, ascending: bool },
    /// Record an entry of the audit log.
    WriteAuditLog { action: String, actor_id: u128, resource: String },
    /// The unrevoked session of a user on a device.
    FindActiveSession { user_id: u128, device: String },
    /// The sessions of a user.
    ListSessions { user_id: u128 },
    /// Store a new session.
    CreateSession { user_id: u128, device: String, ip: String, refresh_token: String },
    /// Give a session a new refresh token, address and seven more days.
    UpdateSession { session_id: u128, refresh_token: String, ip: String },
    /// The session that holds a refresh token, with its user, whether it is
    /// revoked and when it expires, or `Missing`.
    FindSessionByRefreshToken { refresh_token: String },
}

/// What a query answers.
#[derive(Debug)]
pub enum Answer {
    Flag(bool),
    Done,
    Id(u128),
    MaybeId(Option<u128>),
    Text(String),
    Credentials { user_id: u128, password_hash: String },
    SessionOwner { session_id: u128, user_id: u128, is_revoked: bool, expires_at: Timestamp },
    FoundRole(Option<Role>),
    Roles(Vec<Role>),
    Members(Vec<Membership>),
    Permissions(Vec<Permission>),
    CreatedKey(CreatedApiKey),
    ApiKeys(Vec<ApiKeyListItem>),
    Logs(Vec<AuditLogs>),
    Organizations(Vec<Organization>),
    Sessions(Vec<Session>),
    ApiKey(ApiKeyRecord),
    TokenClaims(Claims),
    /// The row that a lookup asks for is not there.
    Missing,
    /// The query failed with this error.
    Failed(AppError),
}

/// The next move of an operation: ask a query and resume in a state, or
/// finish with a result.
#[derive(Debug)]
pub enum Step<S, T> {
    Ask(S, Query),
    Finish(Result<T, AppError>),
}

/// The step that ends an operation with an error.
pub open spec fn fails_with<S, T>(r: Step<S, T>, e: AppError) -> bool {
    r == Step::<S, T>::Finish(Err(e))
}

/// The outcome of a statement that must change a row: none changed means
/// the row is not there.
pub fn rows_changed(rows: u64) -> (r: Result<(), AppError>)
    ensures
        rows == 0 ==> (r matches Err(e) && e is NotFound),
        rows != 0 ==> r is Ok,
{
    if rows == 0 {
        Err(AppError::NotFound)
    } else {
        Ok(())
    }
}

/// A failed query ends the operation with the query's error.
pub open spec fn propagates_failure<S, T>(r: Step<S, T>, answer: Answer) -> bool {
    match answer {
        Answer::Failed(e) => fails_with(r, e),
        _ => true,
    }
}

/// The step that ends an operation because an answer did not fit the query
/// asked (the driver is out of step with the operation).
pub fn out_of_step<S, T>() -> (r: Step<S, T>)
    ensures
        fails_with(r, AppError::InternalServerError),
{
    Step::Finish(Err(AppError::InternalServerError))
}

} // verus!
