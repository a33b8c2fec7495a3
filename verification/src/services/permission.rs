use vstd::prelude::*;
use vstd::string::*;
use crate::error::AppError;
use crate::flow::{fails_with, out_of_step, propagates_failure, Answer, Query, Step};
use crate::models::Permission;

verus! {

/// Listing every permission, waiting for them.
#[derive(Clone, Copy, Debug, PartialEq, Eq, Structural)]
pub struct ListingPermissions;

/// Every permission there is.
pub fn permission_services() -> (r: Step<ListingPermissions, Vec<Permission>>)
    ensures
        r == Step::<ListingPermissions, Vec<Permission>>::Ask(ListingPermissions, Query::ListPermissions),
{
    Step::Ask(ListingPermissions, Query::ListPermissions)
}

impl ListingPermissions {
    /// The permissions that were read.
    pub fn resume(self, answer: Answer) -> (r: Step<ListingPermissions, Vec<Permission>>)
        ensures
            propagates_failure(r, answer),
            match answer {
                Answer::Permissions(p) => r == Step::<ListingPermissions, Vec<Permission>>::Finish(Ok(p)),
                Answer::Failed(_) => true,
                _ => fails_with(r, AppError::InternalServerError),
            },
    {
        match answer {
            Answer::Permissions(p) => Step::Finish(Ok(p)),
            Answer::Failed(e) => Step::Finish(Err(e)),
            _ => out_of_step(),
        }
    }
}

/// The permission a user needs to change the permissions of a role.
pub open spec fn assign_permission_name() -> Seq<char> {
    "permission:assign"@
}

/// Granting permissions to, or taking them from, a role.
#[derive(Clone, Debug)]
pub enum ChangingRolePermissions {
    /// Waiting to learn whether the user may change permissions.
    CheckingPermission { org_id: u128, role_id: u128, permission_ids: Vec<u128>, grant: bool },
    /// Waiting for the role.
    FindingRole { role_id: u128, permission_ids: Vec<u128>, grant: bool },
    /// Waiting for the change to be stored.
    Changing,
}

/// The query that stores a change of permissions.
pub open spec fn permission_change(grant: bool, role_id: u128, permission_ids: Vec<u128>) -> Query {
    if grant {
        Query::AssignPermissions { role_id, permission_ids }
    } else {
        Query::RemovePermissions { role_id, permission_ids }
    }
}

/// How changing the permissions of a role starts: no permission named is a
/// bad request; otherwise the user's right to change permissions is asked.
pub open spec fn starts_permission_change(r: Step<ChangingRolePermissions, ()>, permission_ids: Vec<u128>, role_id: u128, user_id: u128, org_id: u128, grant: bool) -> bool {
    if permission_ids@.len() == 0 {
        r matches Step::Finish(Err(AppError::BadRequest(m))) && m@ == "No Permission Provided"@
    } else {
        r matches Step::Ask(s, Query::CheckPermission { user_id: u, org_id: o, permission })
            && s == (ChangingRolePermissions::CheckingPermission { org_id, role_id, permission_ids, grant })
            && u == user_id && o == org_id && permission@ == assign_permission_name()
    }
}

fn start_permission_change(permission_ids: Vec<u128>, role_id: u128, user_id: u128, org_id: u128, grant: bool) -> (r: Step<
    ChangingRolePermissions,
    (),
>)
    ensures
        starts_permission_change(r, permission_ids, role_id, user_id, org_id, grant),
{
    if permission_ids.len() == 0 {
        return Step::Finish(Err(AppError::BadRequest(String::from_str("No Permission Provided"))));
    }
    Step::Ask(
        ChangingRolePermissions::CheckingPermission { org_id, role_id, permission_ids, grant },
        Query::CheckPermission { user_id, org_id, permission: String::from_str("permission:assign") },
    )
}

/// Grants permissions to a role of an organization.
pub fn assign_permissions_service(permission_ids: Vec<u128>, role_id: u128, user_id: u128, org_id: u128) -> (r: Step<
    ChangingRolePermissions,
    (),
>)
    ensures
        starts_permission_change(r, permission_ids, role_id, user_id, org_id, true),
{
    start_permission_change(permission_ids, role_id, user_id, org_id, true)
}

/// Takes permissions from a role of an organization.
pub fn delete_permission_of_role_service(user_id: u128, org_id: u128, permission_ids: Vec<u128>, role_id: u128) -> (r: Step<
    ChangingRolePermissions,
    (),
>)
    ensures
        starts_permission_change(r, permission_ids, role_id, user_id, org_id, false),
{
    start_permission_change(permission_ids, role_id, user_id, org_id, false)
}

impl ChangingRolePermissions {
    /// Goes on with an answer: without the right the change is forbidden; a
    /// role that is not the organization's is not found; otherwise the change
    /// is stored.
    pub fn resume(self, answer: Answer) -> (r: Step<ChangingRolePermissions, ()>)
        ensures
            propagates_failure(r, answer),
            match self {
                ChangingRolePermissions::CheckingPermission { org_id, role_id, permission_ids, grant } => match answer {
                    Answer::Flag(false) => fails_with(r, AppError::Forbidden),
                    Answer::Flag(true) => r == Step::<ChangingRolePermissions, ()>::Ask(
                        ChangingRolePermissions::FindingRole { role_id, permission_ids, grant },
                        Query::FindRole { org_id, role_id },
                    ),
                    Answer::Failed(_) => true,
                    _ => fails_with(r, AppError::InternalServerError),
                },
                ChangingRolePermissions::FindingRole { role_id, permission_ids, grant } => match answer {
                    Answer::FoundRole(None) => fails_with(r, AppError::NotFound),
                    Answer::FoundRole(Some(_)) => r == Step::<ChangingRolePermissions, ()>::Ask(
                        ChangingRolePermissions::Changing,
                        permission_change(grant, role_id, permission_ids),
                    ),
                    Answer::Failed(_) => true,
                    _ => fails_with(r, AppError::InternalServerError),
                },
                ChangingRolePermissions::Changing => match answer {
                    Answer::Done => r == Step::<ChangingRolePermissions, ()>::Finish(Ok(())),
                    Answer::Failed(_) => true,
                    _ => fails_with(r, AppError::InternalServerError),
                },
            },
    {
        match self {
            ChangingRolePermissions::CheckingPermission { org_id, role_id, permission_ids, grant } => match answer {
                Answer::Flag(false) => Step::Finish(Err(AppError::Forbidden)),
                Answer::Flag(true) => Step::Ask(
                    ChangingRolePermissions::FindingRole { role_id, permission_ids, grant },
                    Query::FindRole { org_id, role_id },
                ),
                Answer::Failed(e) => Step::Finish(Err(e)),
                _ => out_of_step(),
            },
            ChangingRolePermissions::FindingRole { role_id, permission_ids, grant } => match answer {
                Answer::FoundRole(None) => Step::Finish(Err(AppError::NotFound)),
                Answer::FoundRole(Some(_)) => {
                    let q = if grant {
                        Query::AssignPermissions { role_id, permission_ids }
                    } else {
                        Query::RemovePermissions { role_id, permission_ids }
                    };
                    Step::Ask(ChangingRolePermissions::Changing, q)
                },
                Answer::Failed(e) => Step::Finish(Err(e)),
                _ => out_of_step(),
            },
            ChangingRolePermissions::Changing => match answer {
                Answer::Done => Step::Finish(Ok(())),
                Answer::Failed(e) => Step::Finish(Err(e)),
                _ => out_of_step(),
            },
        }
    }
}

/// Reading the permissions of a role.
#[derive(Clone, Copy, Debug, PartialEq, Eq, Structural)]
pub enum ReadingRolePermissions {
    /// Waiting for the role.
    FindingRole { role_id: u128, org_id: u128 },
    /// Waiting for its permissions.
    Reading,
}

/// The permissions of a role of an organization: first asks for the role.
pub fn role_permission_service(role_id: u128, org_id: u128) -> (r: Step<ReadingRolePermissions, Vec<Permission>>)
    ensures
        r == Step::<ReadingRolePermissions, Vec<Permission>>::Ask(
            ReadingRolePermissions::FindingRole { role_id, org_id },
            Query::FindRole { org_id, role_id },
        ),
{
    Step::Ask(ReadingRolePermissions::FindingRole { role_id, org_id }, Query::FindRole { org_id, role_id })
}

impl ReadingRolePermissions {
    /// Goes on with an answer: a role that is not the organization's is not
    /// found; otherwise its permissions are the result.
    pub fn resume(self, answer: Answer) -> (r: Step<ReadingRolePermissions, Vec<Permission>>)
        ensures
            propagates_failure(r, answer),
            match self {
                ReadingRolePermissions::FindingRole { role_id, org_id } => match answer {
                    Answer::FoundRole(None) => fails_with(r, AppError::NotFound),
                    Answer::FoundRole(Some(_)) => r == Step::<ReadingRolePermissions, Vec<Permission>>::Ask(
                        ReadingRolePermissions::Reading,
                        Query::RolePermissions { role_id, org_id },
                    ),
                    Answer::Failed(_) => true,
                    _ => fails_with(r, AppError::InternalServerError),
                },
                ReadingRolePermissions::Reading => match answer {
                    Answer::Permissions(p) => r == Step::<ReadingRolePermissions, Vec<Permission>>::Finish(Ok(p)),
                    Answer::Failed(_) => true,
                    _ => fails_with(r, AppError::InternalServerError),
                },
            },
    {
        match self {
            ReadingRolePermissions::FindingRole { role_id, org_id } => match answer {
                Answer::FoundRole(None) => Step::Finish(Err(AppError::NotFound)),
                Answer::FoundRole(Some(_)) => Step::Ask(
                    ReadingRolePermissions::Reading,
                    Query::RolePermissions { role_id, org_id },
                ),
                Answer::Failed(e) => Step::Finish(Err(e)),
                _ => out_of_step(),
            },
            ReadingRolePermissions::Reading => match answer {
                Answer::Permissions(p) => Step::Finish(Ok(p)),
                Answer::Failed(e) => Step::Finish(Err(e)),
                _ => out_of_step(),
            },
        }
    }
}

} // verus!
