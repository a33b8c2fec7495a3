use vstd::prelude::*;
use vstd::string::*;
use crate::encoding::{to_lowercase, unicode_lowercase};
use crate::error::AppError;
use crate::flow::{fails_with, out_of_step, propagates_failure, Answer, Query, Step};
use crate::models::Role;
use crate::services::audit_logs::{role_resource, role_resource_text};
use crate::services::membership::{after_recording, is_owner, owner_role};

verus! {

/// The audit entry recorded when a role changes.
pub open spec fn records_role(q: Query, action: Seq<char>, actor_id: u128, org_id: u128, name: Seq<char>) -> bool {
    q matches Query::WriteAuditLog { action: a, actor_id: who, resource } && a@ == action && who == actor_id
        && resource@ == role_resource_text(org_id, name)
}

/// Creating a role.
#[derive(Clone, Debug)]
pub enum CreatingRole {
    /// Waiting to learn whether the organization has the role already.
    CheckingName { actor_id: u128, org_id: u128, name: String },
    /// Waiting for the role to be stored.
    Creating { actor_id: u128, org_id: u128, name: String },
    /// Waiting for the audit entry to be recorded.
    Recording { role_id: u128 },
}

/// Creates a role of an organization: first asks whether a role of that
/// name, in lowercase, exists.
pub fn create_role_service(actor_id: u128, name: String, org_id: u128) -> (r: Step<CreatingRole, u128>)
    ensures
        r matches Step::Ask(s, Query::RoleExists { org_id: o, name: n }) && o == org_id && n@
            == unicode_lowercase(name@) && s == (CreatingRole::CheckingName { actor_id, org_id, name }),
{
    let lower = to_lowercase(name.as_str());
    Step::Ask(CreatingRole::CheckingName { actor_id, org_id, name }, Query::RoleExists { org_id, name: lower })
}

impl CreatingRole {
    /// Goes on with an answer: a name that exists is a conflict; otherwise
    /// the role is stored under the name as given, its creation recorded
    /// against the actor as `role:created`, and its id is the result.
    pub fn resume(self, answer: Answer) -> (r: Step<CreatingRole, u128>)
        ensures
            !(self is Recording) ==> propagates_failure(r, answer),
            match self {
                CreatingRole::CheckingName { actor_id, org_id, name } => match answer {
                    Answer::Flag(true) => r matches Step::Finish(Err(AppError::Conflict(m))) && m@
                        == "This Role Already Exists"@,
                    Answer::Flag(false) => r == Step::<CreatingRole, u128>::Ask(
                        CreatingRole::Creating { actor_id, org_id, name },
                        Query::CreateRole { org_id, name },
                    ),
                    Answer::Failed(_) => true,
                    _ => fails_with(r, AppError::InternalServerError),
                },
                CreatingRole::Creating { actor_id, org_id, name } => match answer {
                    Answer::Id(role_id) => r matches Step::Ask(CreatingRole::Recording { role_id: id }, q)
                        && id == role_id && records_role(q, "role:created"@, actor_id, org_id, name@),
                    Answer::Failed(_) => true,
                    _ => fails_with(r, AppError::InternalServerError),
                },
                CreatingRole::Recording { role_id } => match answer {
                    Answer::Done => r == Step::<CreatingRole, u128>::Finish(Ok(role_id)),
                    Answer::Failed(_) => r == Step::<CreatingRole, u128>::Finish(Ok(role_id)),
                    _ => fails_with(r, AppError::InternalServerError),
                },
            },
    {
        match self {
            CreatingRole::CheckingName { actor_id, org_id, name } => match answer {
                Answer::Flag(true) => Step::Finish(Err(AppError::Conflict(String::from_str("This Role Already Exists")))),
                Answer::Flag(false) => {
                    let q = Query::CreateRole { org_id, name: name.clone() };
                    Step::Ask(CreatingRole::Creating { actor_id, org_id, name }, q)
                },
                Answer::Failed(e) => Step::Finish(Err(e)),
                _ => out_of_step(),
            },
            CreatingRole::Creating { actor_id, org_id, name } => match answer {
                Answer::Id(role_id) => Step::Ask(
                    CreatingRole::Recording { role_id },
                    Query::WriteAuditLog {
                        action: String::from_str("role:created"),
                        actor_id,
                        resource: role_resource(org_id, name.as_str()),
                    },
                ),
                Answer::Failed(e) => Step::Finish(Err(e)),
                _ => out_of_step(),
            },
            CreatingRole::Recording { role_id } => match answer {
                Answer::Done => Step::Finish(Ok(role_id)),
                Answer::Failed(_) => Step::Finish(Ok(role_id)),
                _ => out_of_step(),
            },
        }
    }
}

/// Listing the roles of an organization, waiting for them.
#[derive(Clone, Copy, Debug, PartialEq, Eq, Structural)]
pub struct ListingRoles;

/// The roles of an organization.
pub fn all_roles_service(org_id: u128) -> (r: Step<ListingRoles, Vec<Role>>)
    ensures
        r == Step::<ListingRoles, Vec<Role>>::Ask(ListingRoles, Query::ListRoles { org_id }),
{
    Step::Ask(ListingRoles, Query::ListRoles { org_id })
}

impl ListingRoles {
    /// The roles that were read.
    pub fn resume(self, answer: Answer) -> (r: Step<ListingRoles, Vec<Role>>)
        ensures
            propagates_failure(r, answer),
            match answer {
                Answer::Roles(roles) => r == Step::<ListingRoles, Vec<Role>>::Finish(Ok(roles)),
                Answer::Failed(_) => true,
                _ => fails_with(r, AppError::InternalServerError),
            },
    {
        match answer {
            Answer::Roles(roles) => Step::Finish(Ok(roles)),
            Answer::Failed(e) => Step::Finish(Err(e)),
            _ => out_of_step(),
        }
    }
}

/// Renaming or deleting a role.
#[derive(Clone, Debug)]
pub enum ChangingRole {
    /// Waiting for the role, to rename it.
    FindingForUpdate { org_id: u128, actor_id: u128, role_id: u128, name: String },
    /// Waiting for the new name to be stored.
    Updating { org_id: u128, actor_id: u128, name: String },
    /// Waiting for the role, to delete it.
    FindingForDelete { org_id: u128, actor_id: u128, role_id: u128 },
    /// Waiting to learn whether any member holds the role.
    CheckingUse { org_id: u128, actor_id: u128, role_id: u128, name: String },
    /// Waiting for the role to be deleted.
    Deleting { org_id: u128, actor_id: u128, name: String },
    /// Waiting for the audit entry to be recorded.
    Recording,
}

/// Renames a role of an organization: first asks for the role.
pub fn update_role_service(org_id: u128, actor_id: u128, id: u128, name: String) -> (r: Step<ChangingRole, ()>)
    ensures
        r == Step::<ChangingRole, ()>::Ask(
            ChangingRole::FindingForUpdate { org_id, actor_id, role_id: id, name },
            Query::FindRole { org_id, role_id: id },
        ),
{
    Step::Ask(
        ChangingRole::FindingForUpdate { org_id, actor_id, role_id: id, name },
        Query::FindRole { org_id, role_id: id },
    )
}

/// Deletes a role of an organization: first asks for the role.
pub fn delete_role_service(org_id: u128, actor_id: u128, id: u128) -> (r: Step<ChangingRole, ()>)
    ensures
        r == Step::<ChangingRole, ()>::Ask(
            ChangingRole::FindingForDelete { org_id, actor_id, role_id: id },
            Query::FindRole { org_id, role_id: id },
        ),
{
    Step::Ask(ChangingRole::FindingForDelete { org_id, actor_id, role_id: id }, Query::FindRole { org_id, role_id: id })
}

impl ChangingRole {
    /// Goes on with an answer: a role that is not the organization's is not
    /// found; the `Owner` role can be neither renamed nor deleted; a role that
    /// members hold cannot be deleted (a conflict). A rename is recorded as
    /// `role:updated` under the new name, a deletion as `role:delete` under the
    /// old one.
    pub fn resume(self, answer: Answer) -> (r: Step<ChangingRole, ()>)
        ensures
            !(self is Recording) ==> propagates_failure(r, answer),
            match self {
                ChangingRole::FindingForUpdate { org_id, actor_id, role_id, name } => match answer {
                    Answer::FoundRole(None) => fails_with(r, AppError::NotFound),
                    Answer::FoundRole(Some(role)) => if role.name@ == owner_role() {
                        fails_with(r, AppError::Forbidden)
                    } else {
                        r == Step::<ChangingRole, ()>::Ask(
                            ChangingRole::Updating { org_id, actor_id, name },
                            Query::UpdateRole { org_id, role_id, name },
                        )
                    },
                    Answer::Failed(_) => true,
                    _ => fails_with(r, AppError::InternalServerError),
                },
                ChangingRole::Updating { org_id, actor_id, name } => match answer {
                    Answer::Done => r matches Step::Ask(ChangingRole::Recording, q) && records_role(
                        q,
                        "role:updated"@,
                        actor_id,
                        org_id,
                        name@,
                    ),
                    Answer::Failed(_) => true,
                    _ => fails_with(r, AppError::InternalServerError),
                },
                ChangingRole::FindingForDelete { org_id, actor_id, role_id } => match answer {
                    Answer::FoundRole(None) => fails_with(r, AppError::NotFound),
                    Answer::FoundRole(Some(role)) => if role.name@ == owner_role() {
                        fails_with(r, AppError::Forbidden)
                    } else {
                        r == Step::<ChangingRole, ()>::Ask(
                            ChangingRole::CheckingUse { org_id, actor_id, role_id, name: role.name },
                            Query::RoleInUse { role_id },
                        )
                    },
                    Answer::Failed(_) => true,
                    _ => fails_with(r, AppError::InternalServerError),
                },
                ChangingRole::CheckingUse { org_id, actor_id, role_id, name } => match answer {
                    Answer::Flag(true) => r matches Step::Finish(Err(AppError::Conflict(m))) && m@
                        == "Role is in Use"@,
                    Answer::Flag(false) => r == Step::<ChangingRole, ()>::Ask(
                        ChangingRole::Deleting { org_id, actor_id, name },
                        Query::DeleteRole { org_id, role_id },
                    ),
                    Answer::Failed(_) => true,
                    _ => fails_with(r, AppError::InternalServerError),
                },
                ChangingRole::Deleting { org_id, actor_id, name } => match answer {
                    Answer::Done => r matches Step::Ask(ChangingRole::Recording, q) && records_role(
                        q,
                        "role:delete"@,
                        actor_id,
                        org_id,
                        name@,
                    ),
                    Answer::Failed(_) => true,
                    _ => fails_with(r, AppError::InternalServerError),
                },
                ChangingRole::Recording => after_recording(r, answer),
            },
    {
        match self {
            ChangingRole::FindingForUpdate { org_id, actor_id, role_id, name } => match answer {
                Answer::FoundRole(None) => Step::Finish(Err(AppError::NotFound)),
                Answer::FoundRole(Some(role)) => {
                    if is_owner(role.name.as_str()) {
                        Step::Finish(Err(AppError::Forbidden))
                    } else {
                        let q = Query::UpdateRole { org_id, role_id, name: name.clone() };
                        Step::Ask(ChangingRole::Updating { org_id, actor_id, name }, q)
                    }
                },
                Answer::Failed(e) => Step::Finish(Err(e)),
                _ => out_of_step(),
            },
            ChangingRole::Updating { org_id, actor_id, name } => match answer {
                Answer::Done => Step::Ask(
                    ChangingRole::Recording,
                    Query::WriteAuditLog {
                        action: String::from_str("role:updated"),
                        actor_id,
                        resource: role_resource(org_id, name.as_str()),
                    },
                ),
                Answer::Failed(e) => Step::Finish(Err(e)),
                _ => out_of_step(),
            },
            ChangingRole::FindingForDelete { org_id, actor_id, role_id } => match answer {
                Answer::FoundRole(None) => Step::Finish(Err(AppError::NotFound)),
                Answer::FoundRole(Some(role)) => {
                    if is_owner(role.name.as_str()) {
                        Step::Finish(Err(AppError::Forbidden))
                    } else {
                        Step::Ask(
                            ChangingRole::CheckingUse { org_id, actor_id, role_id, name: role.name },
                            Query::RoleInUse { role_id },
                        )
                    }
                },
                Answer::Failed(e) => Step::Finish(Err(e)),
                _ => out_of_step(),
            },
            ChangingRole::CheckingUse { org_id, actor_id, role_id, name } => match answer {
                Answer::Flag(true) => Step::Finish(Err(AppError::Conflict(String::from_str("Role is in Use")))),
                Answer::Flag(false) => Step::Ask(
                    ChangingRole::Deleting { org_id, actor_id, name },
                    Query::DeleteRole { org_id, role_id },
                ),
                Answer::Failed(e) => Step::Finish(Err(e)),
                _ => out_of_step(),
            },
            ChangingRole::Deleting { org_id, actor_id, name } => match answer {
                Answer::Done => Step::Ask(
                    ChangingRole::Recording,
                    Query::WriteAuditLog {
                        action: String::from_str("role:delete"),
                        actor_id,
                        resource: role_resource(org_id, name.as_str()),
                    },
                ),
                Answer::Failed(e) => Step::Finish(Err(e)),
                _ => out_of_step(),
            },
            ChangingRole::Recording => match answer {
                Answer::Done => Step::Finish(Ok(())),
                Answer::Failed(_) => Step::Finish(Ok(())),
                _ => out_of_step(),
            },
        }
    }
}

} // verus!
