use vstd::prelude::*;
use crate::error::AppError;
use vstd::string::*;
use crate::flow::{fails_with, out_of_step, propagates_failure, Answer, Query, Step};
use crate::models::ListOrgsRes;
use crate::services::membership::owner_role;
use crate::pagination::{cursor_fails, is_cursor_error, is_org_page, organization_page, resolve_page, settled, PageParams};

verus! {

/// Listing a user's organizations, waiting for the page.
#[derive(Clone, Copy, Debug, PartialEq, Eq, Structural)]
pub struct ListingOrgs {
    pub params: PageParams,
}

/// The organizations a user belongs to, a page at a time: page size 10 by
/// default and at most 100, newest first unless `asc` is asked for, after
/// the cursor if one is given.
pub fn all_org_service(user_id: u128, cursor: Option<String>, limit: Option<i64>, order: Option<String>) -> (r: Step<
    ListingOrgs,
    ListOrgsRes,
>)
    ensures
        if cursor_fails(cursor) {
            r matches Step::Finish(Err(e)) && is_cursor_error(e)
        } else {
            r matches Step::Ask(s, q) && settled(s.params, cursor, limit, order) && q
                == Query::UserOrganizations {
                user_id,
                cursor: s.params.cursor,
                limit: s.params.limit,
                ascending: s.params.ascending,
            }
        },
{
    match resolve_page(&cursor, limit, &order) {
        Err(e) => Step::Finish(Err(e)),
        Ok(params) => Step::Ask(
            ListingOrgs { params },
            Query::UserOrganizations {
                user_id,
                cursor: params.cursor,
                limit: params.limit,
                ascending: params.ascending,
            },
        ),
    }
}

impl ListingOrgs {
    /// Goes on with the organizations read: the page, with the cursor of the
    /// next page when this one is full.
    pub fn resume(self, answer: Answer) -> (r: Step<ListingOrgs, ListOrgsRes>)
        ensures
            match answer {
                Answer::Organizations(data) => r matches Step::Finish(Ok(page)) && is_org_page(
                    page,
                    data@,
                    self.params,
                ),
                Answer::Failed(e) => fails_with(r, e),
                _ => fails_with(r, AppError::InternalServerError),
            },
    {
        match answer {
            Answer::Organizations(data) => Step::Finish(Ok(organization_page(data, &self.params))),
            Answer::Failed(e) => Step::Finish(Err(e)),
            _ => out_of_step(),
        }
    }
}

/// The name of the role that the creator of an organization receives.
pub open spec fn founder_role() -> Seq<char> {
    owner_role()
}

/// The role that every organization is created with is the owner's role:
/// the one that cannot be renamed, deleted or taken away, and whose holder
/// cannot be removed.
pub proof fn founder_role_is_protected()
    ensures
        founder_role() == owner_role(),
{
}

/// Creating an organization. All of its steps belong to one transaction.
#[derive(Clone, Copy, Debug, PartialEq, Eq, Structural)]
pub enum CreatingOrganization {
    /// Waiting for the organization to be stored.
    Inserting { user_id: u128 },
    /// Waiting for the creator to become a member.
    Joining { user_id: u128, org_id: u128 },
    /// Waiting for the founder role to be stored.
    CreatingRole { user_id: u128, org_id: u128 },
    /// Waiting for the founder role to receive every permission.
    Granting { user_id: u128, org_id: u128, role_id: u128 },
    /// Waiting for the creator to receive the founder role.
    Assigning { org_id: u128 },
}

/// Creates an organization for a user: first stores it.
pub fn create_organization(user_id: u128, name: String) -> (r: Step<CreatingOrganization, u128>)
    ensures
        r == Step::<CreatingOrganization, u128>::Ask(
            CreatingOrganization::Inserting { user_id },
            Query::InsertOrganization { name, created_by: user_id },
        ),
{
    Step::Ask(CreatingOrganization::Inserting { user_id }, Query::InsertOrganization { name, created_by: user_id })
}

impl CreatingOrganization {
    /// Goes on with an answer: the creator becomes a member, an `Owner` role
    /// is created with every permission, and the creator receives it; the id
    /// of the organization is the result.
    pub fn resume(self, answer: Answer) -> (r: Step<CreatingOrganization, u128>)
        ensures
            propagates_failure(r, answer),
            match self {
                CreatingOrganization::Inserting { user_id } => match answer {
                    Answer::Id(org_id) => r == Step::<CreatingOrganization, u128>::Ask(
                        CreatingOrganization::Joining { user_id, org_id },
                        Query::AddMember { org_id, user_id },
                    ),
                    Answer::Failed(_) => true,
                    _ => fails_with(r, AppError::InternalServerError),
                },
                CreatingOrganization::Joining { user_id, org_id } => match answer {
                    Answer::Done => r matches Step::Ask(
                        CreatingOrganization::CreatingRole { user_id: u, org_id: o },
                        Query::CreateRole { org_id: qo, name },
                    ) && u == user_id && o == org_id && qo == org_id && name@ == founder_role(),
                    Answer::Failed(_) => true,
                    _ => fails_with(r, AppError::InternalServerError),
                },
                CreatingOrganization::CreatingRole { user_id, org_id } => match answer {
                    Answer::Id(role_id) => r == Step::<CreatingOrganization, u128>::Ask(
                        CreatingOrganization::Granting { user_id, org_id, role_id },
                        Query::GrantAllPermissions { role_id },
                    ),
                    Answer::Failed(_) => true,
                    _ => fails_with(r, AppError::InternalServerError),
                },
                CreatingOrganization::Granting { user_id, org_id, role_id } => match answer {
                    Answer::Done => r == Step::<CreatingOrganization, u128>::Ask(
                        CreatingOrganization::Assigning { org_id },
                        Query::AssignRole { role_id, user_id, org_id },
                    ),
                    Answer::Failed(_) => true,
                    _ => fails_with(r, AppError::InternalServerError),
                },
                CreatingOrganization::Assigning { org_id } => match answer {
                    Answer::Done => r == Step::<CreatingOrganization, u128>::Finish(Ok(org_id)),
                    Answer::Failed(_) => true,
                    _ => fails_with(r, AppError::InternalServerError),
                },
            },
    {
        match self {
            CreatingOrganization::Inserting { user_id } => match answer {
                Answer::Id(org_id) => Step::Ask(
                    CreatingOrganization::Joining { user_id, org_id },
                    Query::AddMember { org_id, user_id },
                ),
                Answer::Failed(e) => Step::Finish(Err(e)),
                _ => out_of_step(),
            },
            CreatingOrganization::Joining { user_id, org_id } => match answer {
                Answer::Done => Step::Ask(
                    CreatingOrganization::CreatingRole { user_id, org_id },
                    Query::CreateRole { org_id, name: String::from_str("Owner") },
                ),
                Answer::Failed(e) => Step::Finish(Err(e)),
                _ => out_of_step(),
            },
            CreatingOrganization::CreatingRole { user_id, org_id } => match answer {
                Answer::Id(role_id) => Step::Ask(
                    CreatingOrganization::Granting { user_id, org_id, role_id },
                    Query::GrantAllPermissions { role_id },
                ),
                Answer::Failed(e) => Step::Finish(Err(e)),
                _ => out_of_step(),
            },
            CreatingOrganization::Granting { user_id, org_id, role_id } => match answer {
                Answer::Done => Step::Ask(
                    CreatingOrganization::Assigning { org_id },
                    Query::AssignRole { role_id, user_id, org_id },
                ),
                Answer::Failed(e) => Step::Finish(Err(e)),
                _ => out_of_step(),
            },
            CreatingOrganization::Assigning { org_id } => match answer {
                Answer::Done => Step::Finish(Ok(org_id)),
                Answer::Failed(e) => Step::Finish(Err(e)),
                _ => out_of_step(),
            },
        }
    }
}

} // verus!
