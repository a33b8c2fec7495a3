use vstd::prelude::*;
use crate::time::Timestamp;

verus! {

/// An API key as it is created: its id, name and expiry.
#[derive(Clone, Debug)]
pub struct CreatedApiKey {
    pub id: u128,
    pub name: String,
    pub expires_at: Timestamp,
}

/// The answer to creating an API key; the raw key is shown only here.
#[derive(Clone, Debug)]
pub struct CreateApiKeyResponse {
    pub id: u128,
    pub name: String,
    pub raw_key: String,
    pub expires_at: Timestamp,
}

/// A request to create an API key.
#[derive(Clone, Debug)]
pub struct CreateApiRequest {
    pub name: String,
    pub permission_ids: Vec<u128>,
    pub expires_in_dayes: Option<i64>,
}

/// An API key in a listing.
#[derive(Clone, Debug)]
pub struct ApiKeyListItem {
    pub id: u128,
    pub name: String,
    pub expires_at: Timestamp,
    pub is_deleted: bool,
    pub scopes: Vec<String>,
}

/// A permission in the scope of an API key.
#[derive(Clone, Copy, Debug, PartialEq, Eq, Structural)]
pub struct ApiKeyScope {
    pub api_key_id: u128,
    pub permission_id: u128,
}

/// An entry of the audit log.
#[derive(Clone, Debug)]
pub struct AuditLogs {
    pub id: u128,
    pub actor_id: u128,
    pub action: String,
    pub resource: String,
    pub timestamp: Timestamp,
}

/// A page of audit-log entries.
#[derive(Clone, Debug)]
pub struct ListAuditLogs {
    pub data: Vec<AuditLogs>,
    pub next_cursor: Option<String>,
    pub order: String,
    pub limit: i64,
}

/// The paging parameters of an audit-log listing.
#[derive(Clone, Debug)]
pub struct AuditLogPagination {
    pub cursor: Option<String>,
    pub limit: Option<i64>,
    pub order: Option<String>,
}

/// A role held by a member of an organization.
#[derive(Clone, Copy, Debug, PartialEq, Eq, Structural)]
pub struct MemberRole {
    pub user_id: u128,
    pub org_id: u128,
    pub role_id: u128,
}

/// A member of an organization.
#[derive(Clone, Copy, Debug, PartialEq, Eq, Structural)]
pub struct Membership {
    pub user_id: u128,
    pub org_id: u128,
    pub joined_at: Timestamp,
}

/// A request to add a member by email.
#[derive(Clone, Debug)]
pub struct AddMember {
    pub email: String,
}

/// An organization.
#[derive(Clone, Debug)]
pub struct Organization {
    pub id: u128,
    pub name: String,
    pub created_at: Timestamp,
}

/// A request to create an organization.
#[derive(Clone, Debug)]
pub struct CreateOrgReq {
    pub name: String,
}

/// A page of organizations.
#[derive(Clone, Debug)]
pub struct ListOrgsRes {
    pub data: Vec<Organization>,
    pub next_cursor: Option<String>,
    pub order: String,
    pub limit: i64,
}

/// The paging parameters of an organization listing.
#[derive(Clone, Debug)]
pub struct OrgPaginationQuery {
    pub cursor: Option<String>,
    pub limit: Option<i64>,
    pub order: Option<String>,
}

/// A permission.
#[derive(Clone, Debug)]
pub struct Permission {
    pub id: u128,
    pub name: String,
}

/// A request naming permissions to grant to or take from a role.
#[derive(Clone, Debug)]
pub struct AssignPermissions {
    pub permission_ids: Vec<u128>,
}

/// A role, by name.
#[derive(Clone, Debug)]
pub struct Role {
    pub name: String,
}

/// A permission granted to a role.
#[derive(Clone, Copy, Debug, PartialEq, Eq, Structural)]
pub struct RolePermission {
    pub role_id: u128,
    pub permission_id: u128,
}

/// A session of a user on a device.
#[derive(Clone, Debug)]
pub struct Session {
    pub id: u128,
    pub device: String,
    pub ip: String,
    pub created_at: Timestamp,
    pub expires_at: Timestamp,
    pub is_revoked: bool,
}

/// A session in a listing, marked when it is the session of the device that
/// asks.
#[derive(Clone, Debug)]
pub struct SessionResponse {
    pub id: u128,
    pub device: String,
    pub ip: String,
    pub created_at: Timestamp,
    pub expires_at: Timestamp,
    pub is_current: bool,
    pub is_revoked: bool,
}

/// A request that carries a refresh token.
#[derive(Clone, Debug)]
pub struct ReqToken {
    pub refresh_token: String,
}

/// A user account.
#[derive(Clone, Debug)]
pub struct User {
    pub id: u128,
    pub email: String,
    pub password: String,
    pub name: String,
    pub created_at: Timestamp,
    pub is_deleted: bool,
}

/// A registration request.
#[derive(Clone, Debug)]
pub struct Create {
    pub email: String,
    pub password: String,
    pub name: String,
}

/// A sign-in request.
#[derive(Clone, Debug)]
pub struct LoginReq {
    pub email: String,
    pub password: String,
}

/// The answer to a sign-in or a refresh: a new access token, a new refresh
/// token, and the access token's lifetime in seconds.
#[derive(Clone, Debug)]
pub struct LoginRes {
    pub access_token: String,
    pub refresh_token: String,
    pub expires_in: i64,
}

/// The public profile of a user.
#[derive(Clone, Debug)]
pub struct Profile {
    pub id: u128,
    pub email: String,
    pub name: String,
    pub created_at: Timestamp,
}

/// A request to rename the signed-in user.
#[derive(Clone, Debug)]
pub struct UpdateProfile {
    pub name: String,
}

} // verus!
