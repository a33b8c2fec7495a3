use vstd::prelude::*;
use vstd::string::*;
use crate::auth::AuthActor;
use crate::error::AppError;
use crate::flow::{fails_with, out_of_step, propagates_failure, Answer, Query, Step};
use crate::models::{Membership, Role};
use crate::services::audit_logs::{member_resource, member_resource_text};
use crate::text::same_text;

verus! {

/// The name of the owner's role, which every organization is created with
/// and which cannot be taken away, renamed or deleted.
pub open spec fn owner_role() -> Seq<char> {
    "Owner"@
}

/// Whether a role name is the owner's.
pub fn is_owner(name: &str) -> (b: bool)
    ensures
        b == (name@ == owner_role()),
{
    same_text(name, "Owner")
}

/// The audit entry recorded when a member changes.
pub open spec fn records_member(q: Query, action: Seq<char>, actor_id: u128, org_id: u128, member_id: u128) -> bool {
    q matches Query::WriteAuditLog { action: a, actor_id: who, resource } && a@ == action && who == actor_id
        && resource@ == member_resource_text(org_id, member_id)
}

/// The end of an operation once its audit entry is recorded or failed to
/// be: the operation succeeded either way.
pub open spec fn after_recording<S>(r: Step<S, ()>, answer: Answer) -> bool {
    match answer {
        Answer::Done => r == Step::<S, ()>::Finish(Ok(())),
        Answer::Failed(_) => r == Step::<S, ()>::Finish(Ok(())),
        _ => fails_with(r, AppError::InternalServerError),
    }
}

fn recorded<S>(answer: Answer) -> (r: Step<S, ()>)
    ensures
        after_recording(r, answer),
{
    match answer {
        Answer::Done => Step::Finish(Ok(())),
        Answer::Failed(_) => Step::Finish(Ok(())),
        _ => out_of_step(),
    }
}

/// Adding a member to an organization by email.
#[derive(Clone, Debug)]
pub enum AddingMember {
    /// Waiting to learn whether an account uses the email.
    CheckingEmail { email: String, actor_id: u128, org_id: u128 },
    /// Waiting for the account with the email.
    FindingMember { actor_id: u128, org_id: u128 },
    /// Waiting to learn whether the account is a member already.
    CheckingMembership { actor_id: u128, org_id: u128, member_id: u128 },
    /// Waiting for the membership to be stored.
    Adding { actor_id: u128, org_id: u128, member_id: u128 },
    /// Waiting for the audit entry to be recorded.
    Recording,
}

/// Adds the account with an email to an organization: first asks whether
/// an account uses the email.
pub fn add_member_services(member_email: String, user_id: u128, org_id: u128) -> (r: Step<AddingMember, ()>)
    ensures
        r == Step::<AddingMember, ()>::Ask(
            AddingMember::CheckingEmail { email: member_email, actor_id: user_id, org_id },
            Query::CheckEmail { email: member_email },
        ),
{
    let q = Query::CheckEmail { email: member_email.clone() };
    Step::Ask(AddingMember::CheckingEmail { email: member_email, actor_id: user_id, org_id }, q)
}

impl AddingMember {
    /// Goes on with an answer: an unknown email is not found (and an account
    /// that is gone by the time it is read leaves the request unauthorized);
    /// a member already there is a conflict; otherwise the membership is
    /// stored and recorded against the actor as `member:added`.
    pub fn resume(self, answer: Answer) -> (r: Step<AddingMember, ()>)
        ensures
            !(self is Recording) ==> propagates_failure(r, answer),
            match self {
                AddingMember::CheckingEmail { email, actor_id, org_id } => match answer {
                    Answer::Flag(false) => fails_with(r, AppError::NotFound),
                    Answer::Flag(true) => r == Step::<AddingMember, ()>::Ask(
                        AddingMember::FindingMember { actor_id, org_id },
                        Query::FindUserByEmail { email },
                    ),
                    Answer::Failed(_) => true,
                    _ => fails_with(r, AppError::InternalServerError),
                },
                AddingMember::FindingMember { actor_id, org_id } => match answer {
                    Answer::Credentials { user_id, password_hash: _ } => r == Step::<AddingMember, ()>::Ask(
                        AddingMember::CheckingMembership { actor_id, org_id, member_id: user_id },
                        Query::CheckMembership { user_id, org_id },
                    ),
                    Answer::Missing => fails_with(r, AppError::Unauthorized),
                    Answer::Failed(_) => true,
                    _ => fails_with(r, AppError::InternalServerError),
                },
                AddingMember::CheckingMembership { actor_id, org_id, member_id } => match answer {
                    Answer::Flag(true) => r matches Step::Finish(Err(AppError::Conflict(m))) && m@
                        == "Member Already Exist"@,
                    Answer::Flag(false) => r == Step::<AddingMember, ()>::Ask(
                        AddingMember::Adding { actor_id, org_id, member_id },
                        Query::AddMember { org_id, user_id: member_id },
                    ),
                    Answer::Failed(_) => true,
                    _ => fails_with(r, AppError::InternalServerError),
                },
                AddingMember::Adding { actor_id, org_id, member_id } => match answer {
                    Answer::Done => r matches Step::Ask(AddingMember::Recording, q) && records_member(
                        q,
                        "member:added"@,
                        actor_id,
                        org_id,
                        member_id,
                    ),
                    Answer::Failed(_) => true,
                    _ => fails_with(r, AppError::InternalServerError),
                },
                AddingMember::Recording => after_recording(r, answer),
            },
    {
        match self {
            AddingMember::Recording => recorded(answer),
            AddingMember::CheckingEmail { email, actor_id, org_id } => match answer {
                Answer::Flag(false) => Step::Finish(Err(AppError::NotFound)),
                Answer::Flag(true) => Step::Ask(
                    AddingMember::FindingMember { actor_id, org_id },
                    Query::FindUserByEmail { email },
                ),
                Answer::Failed(e) => Step::Finish(Err(e)),
                _ => out_of_step(),
            },
            AddingMember::FindingMember { actor_id, org_id } => match answer {
                Answer::Credentials { user_id, password_hash: _ } => Step::Ask(
                    AddingMember::CheckingMembership { actor_id, org_id, member_id: user_id },
                    Query::CheckMembership { user_id, org_id },
                ),
                Answer::Missing => Step::Finish(Err(AppError::Unauthorized)),
                Answer::Failed(e) => Step::Finish(Err(e)),
                _ => out_of_step(),
            },
            AddingMember::CheckingMembership { actor_id, org_id, member_id } => match answer {
                Answer::Flag(true) => Step::Finish(
                    Err(AppError::Conflict(String::from_str("Member Already Exist"))),
                ),
                Answer::Flag(false) => Step::Ask(
                    AddingMember::Adding { actor_id, org_id, member_id },
                    Query::AddMember { org_id, user_id: member_id },
                ),
                Answer::Failed(e) => Step::Finish(Err(e)),
                _ => out_of_step(),
            },
            AddingMember::Adding { actor_id, org_id, member_id } => match answer {
                Answer::Done => Step::Ask(
                    AddingMember::Recording,
                    Query::WriteAuditLog {
                        action: String::from_str("member:added"),
                        actor_id,
                        resource: member_resource(org_id, member_id),
                    },
                ),
                Answer::Failed(e) => Step::Finish(Err(e)),
                _ => out_of_step(),
            },
        }
    }
}

/// Removing a member from an organization.
#[derive(Clone, Copy, Debug, PartialEq, Eq, Structural)]
pub enum RemovingMember {
    /// Waiting for the name of the member's role.
    ReadingRole { actor_id: u128, member_id: u128, org_id: u128 },
    /// Waiting for the membership (and the member's roles) to be deleted.
    Deleting { actor_id: u128, member_id: u128, org_id: u128 },
    /// Waiting for the audit entry to be recorded.
    Recording,
}

/// Removes a member from an organization. A user cannot remove themself:
/// that is forbidden at once. Otherwise the member's role is asked for.
pub fn remove_member_service(actor: &AuthActor, member_id: u128, org_id: u128) -> (r: Step<RemovingMember, ()>)
    ensures
        if actor.user_id == Some(member_id) {
            fails_with(r, AppError::Forbidden)
        } else {
            r == Step::<RemovingMember, ()>::Ask(
                RemovingMember::ReadingRole { actor_id: actor.actor_id, member_id, org_id },
                Query::MemberRole { org_id, user_id: member_id },
            )
        },
{
    match actor.user_id {
        Some(user_id) => {
            if user_id == member_id {
                return Step::Finish(Err(AppError::Forbidden));
            }
        },
        None => {},
    }
    Step::Ask(
        RemovingMember::ReadingRole { actor_id: actor.actor_id, member_id, org_id },
        Query::MemberRole { org_id, user_id: member_id },
    )
}

impl RemovingMember {
    /// Goes on with an answer: a user who holds no role there is not found;
    /// the holder of the `Owner` role cannot be removed; anyone else is
    /// removed and the removal recorded against the actor as
    /// `member:removed`.
    pub fn resume(self, answer: Answer) -> (r: Step<RemovingMember, ()>)
        ensures
            !(self is Recording) ==> propagates_failure(r, answer),
            match self {
                RemovingMember::ReadingRole { actor_id, member_id, org_id } => match answer {
                    Answer::Text(role) => if role@ == owner_role() {
                        fails_with(r, AppError::Forbidden)
                    } else {
                        r == Step::<RemovingMember, ()>::Ask(
                            RemovingMember::Deleting { actor_id, member_id, org_id },
                            Query::DeleteMember { org_id, user_id: member_id },
                        )
                    },
                    Answer::Missing => fails_with(r, AppError::NotFound),
                    Answer::Failed(_) => true,
                    _ => fails_with(r, AppError::InternalServerError),
                },
                RemovingMember::Deleting { actor_id, member_id, org_id } => match answer {
                    Answer::Done => r matches Step::Ask(RemovingMember::Recording, q) && records_member(
                        q,
                        "member:removed"@,
                        actor_id,
                        org_id,
                        member_id,
                    ),
                    Answer::Failed(_) => true,
                    _ => fails_with(r, AppError::InternalServerError),
                },
                RemovingMember::Recording => after_recording(r, answer),
            },
    {
        match self {
            RemovingMember::Recording => recorded(answer),
            RemovingMember::ReadingRole { actor_id, member_id, org_id } => match answer {
                Answer::Text(role) => {
                    if is_owner(role.as_str()) {
                        Step::Finish(Err(AppError::Forbidden))
                    } else {
                        Step::Ask(
                            RemovingMember::Deleting { actor_id, member_id, org_id },
                            Query::DeleteMember { org_id, user_id: member_id },
                        )
                    }
                },
                Answer::Missing => Step::Finish(Err(AppError::NotFound)),
                Answer::Failed(e) => Step::Finish(Err(e)),
                _ => out_of_step(),
            },
            RemovingMember::Deleting { actor_id, member_id, org_id } => match answer {
                Answer::Done => Step::Ask(
                    RemovingMember::Recording,
                    Query::WriteAuditLog {
                        action: String::from_str("member:removed"),
                        actor_id,
                        resource: member_resource(org_id, member_id),
                    },
                ),
                Answer::Failed(e) => Step::Finish(Err(e)),
                _ => out_of_step(),
            },
        }
    }
}

/// Listing the members of an organization.
#[derive(Clone, Copy, Debug, PartialEq, Eq, Structural)]
pub enum ListingMembers {
    /// Waiting to learn whether the user who asks is a member.
    CheckingMembership { org_id: u128 },
    /// Waiting for the members.
    Listing,
}

/// Lists the members of an organization. A user must be a member to see
/// them, which is asked first; an API key (already held to its
/// organization) is not asked about.
pub fn all_members_services(org_id: u128, actor: &AuthActor) -> (r: Step<ListingMembers, Vec<Membership>>)
    ensures
        match actor.user_id {
            Some(u) => r == Step::<ListingMembers, Vec<Membership>>::Ask(
                ListingMembers::CheckingMembership { org_id },
                Query::CheckMembership { user_id: u, org_id },
            ),
            None => r == Step::<ListingMembers, Vec<Membership>>::Ask(
                ListingMembers::Listing,
                Query::ListMembers { org_id },
            ),
        },
{
    match actor.user_id {
        Some(u) => Step::Ask(ListingMembers::CheckingMembership { org_id }, Query::CheckMembership { user_id: u, org_id }),
        None => Step::Ask(ListingMembers::Listing, Query::ListMembers { org_id }),
    }
}

impl ListingMembers {
    /// Goes on with an answer: a user who is not a member is forbidden;
    /// otherwise the members are the result.
    pub fn resume(self, answer: Answer) -> (r: Step<ListingMembers, Vec<Membership>>)
        ensures
            propagates_failure(r, answer),
            match self {
                ListingMembers::CheckingMembership { org_id } => match answer {
                    Answer::Flag(false) => fails_with(r, AppError::Forbidden),
                    Answer::Flag(true) => r == Step::<ListingMembers, Vec<Membership>>::Ask(
                        ListingMembers::Listing,
                        Query::ListMembers { org_id },
                    ),
                    Answer::Failed(_) => true,
                    _ => fails_with(r, AppError::InternalServerError),
                },
                ListingMembers::Listing => match answer {
                    Answer::Members(m) => r == Step::<ListingMembers, Vec<Membership>>::Finish(Ok(m)),
                    Answer::Failed(_) => true,
                    _ => fails_with(r, AppError::InternalServerError),
                },
            },
    {
        match self {
            ListingMembers::CheckingMembership { org_id } => match answer {
                Answer::Flag(false) => Step::Finish(Err(AppError::Forbidden)),
                Answer::Flag(true) => Step::Ask(ListingMembers::Listing, Query::ListMembers { org_id }),
                Answer::Failed(e) => Step::Finish(Err(e)),
                _ => out_of_step(),
            },
            ListingMembers::Listing => match answer {
                Answer::Members(m) => Step::Finish(Ok(m)),
                Answer::Failed(e) => Step::Finish(Err(e)),
                _ => out_of_step(),
            },
        }
    }
}

/// Reading the role of a member.
#[derive(Clone, Copy, Debug, PartialEq, Eq, Structural)]
pub enum ReadingMemberRole {
    /// Waiting to learn whether the user who asks is a member.
    CheckingMembership { member_id: u128, org_id: u128 },
    /// Waiting for the name of the role.
    Reading,
}

/// The name of the role a member holds in an organization. A user must be a
/// member of the organization to read it, which is asked first; an API key
/// (already held to its organization) is not asked about.
pub fn return_member_role_service(member_id: u128, org_id: u128, actor: &AuthActor) -> (r: Step<
    ReadingMemberRole,
    String,
>)
    ensures
        match actor.user_id {
            Some(u) => r == Step::<ReadingMemberRole, String>::Ask(
                ReadingMemberRole::CheckingMembership { member_id, org_id },
                Query::CheckMembership { user_id: u, org_id },
            ),
            None => r == Step::<ReadingMemberRole, String>::Ask(
                ReadingMemberRole::Reading,
                Query::MemberRole { org_id, user_id: member_id },
            ),
        },
{
    match actor.user_id {
        Some(u) => Step::Ask(
            ReadingMemberRole::CheckingMembership { member_id, org_id },
            Query::CheckMembership { user_id: u, org_id },
        ),
        None => Step::Ask(ReadingMemberRole::Reading, Query::MemberRole { org_id, user_id: member_id }),
    }
}

impl ReadingMemberRole {
    /// Goes on with an answer: a user who is not a member is forbidden; a
    /// member who holds no role there is not found; otherwise the name read
    /// is the result.
    pub fn resume(self, answer: Answer) -> (r: Step<ReadingMemberRole, String>)
        ensures
            propagates_failure(r, answer),
            match self {
                ReadingMemberRole::CheckingMembership { member_id, org_id } => match answer {
                    Answer::Flag(false) => fails_with(r, AppError::Forbidden),
                    Answer::Flag(true) => r == Step::<ReadingMemberRole, String>::Ask(
                        ReadingMemberRole::Reading,
                        Query::MemberRole { org_id, user_id: member_id },
                    ),
                    Answer::Failed(_) => true,
                    _ => fails_with(r, AppError::InternalServerError),
                },
                ReadingMemberRole::Reading => match answer {
                    Answer::Text(name) => r == Step::<ReadingMemberRole, String>::Finish(Ok(name)),
                    Answer::Missing => fails_with(r, AppError::NotFound),
                    Answer::Failed(_) => true,
                    _ => fails_with(r, AppError::InternalServerError),
                },
            },
    {
        match self {
            ReadingMemberRole::CheckingMembership { member_id, org_id } => match answer {
                Answer::Flag(false) => Step::Finish(Err(AppError::Forbidden)),
                Answer::Flag(true) => Step::Ask(
                    ReadingMemberRole::Reading,
                    Query::MemberRole { org_id, user_id: member_id },
                ),
                Answer::Failed(e) => Step::Finish(Err(e)),
                _ => out_of_step(),
            },
            ReadingMemberRole::Reading => match answer {
                Answer::Text(name) => Step::Finish(Ok(name)),
                Answer::Missing => Step::Finish(Err(AppError::NotFound)),
                Answer::Failed(e) => Step::Finish(Err(e)),
                _ => out_of_step(),
            },
        }
    }
}

/// Giving a role to, or taking it from, a member.
#[derive(Clone, Copy, Debug, PartialEq, Eq, Structural)]
pub enum ChangingMemberRole {
    /// Waiting to learn whether the user is a member.
    CheckingMembership { org_id: u128, member_id: u128, role_id: u128, assign: bool },
    /// Waiting for the role.
    FindingRole { org_id: u128, member_id: u128, role_id: u128, assign: bool },
    /// Waiting for the role again, to see whether it is the owner's.
    CheckingOwner { org_id: u128, member_id: u128, role_id: u128 },
    /// Waiting for the change to be stored.
    Changing,
}

/// Gives a role of an organization to one of its members: first asks
/// whether the user is a member.
pub fn assign_role_service(org_id: u128, _actor_id: u128, member_id: u128, role_id: u128) -> (r: Step<
    ChangingMemberRole,
    (),
>)
    ensures
        r == Step::<ChangingMemberRole, ()>::Ask(
            ChangingMemberRole::CheckingMembership { org_id, member_id, role_id, assign: true },
            Query::CheckMembership { user_id: member_id, org_id },
        ),
{
    Step::Ask(
        ChangingMemberRole::CheckingMembership { org_id, member_id, role_id, assign: true },
        Query::CheckMembership { user_id: member_id, org_id },
    )
}

/// Takes a role of an organization from one of its members: first asks
/// whether the user is a member.
pub fn disassign_role_service(org_id: u128, _actor_id: u128, member_id: u128, role_id: u128) -> (r: Step<
    ChangingMemberRole,
    (),
>)
    ensures
        r == Step::<ChangingMemberRole, ()>::Ask(
            ChangingMemberRole::CheckingMembership { org_id, member_id, role_id, assign: false },
            Query::CheckMembership { user_id: member_id, org_id },
        ),
{
    Step::Ask(
        ChangingMemberRole::CheckingMembership { org_id, member_id, role_id, assign: false },
        Query::CheckMembership { user_id: member_id, org_id },
    )
}

/// The query that stores a change of role.
pub open spec fn role_change(assign: bool, org_id: u128, member_id: u128, role_id: u128) -> Query {
    if assign {
        Query::AssignRole { role_id, user_id: member_id, org_id }
    } else {
        Query::DisassignRole { role_id, user_id: member_id, org_id }
    }
}

fn role_change_query(assign: bool, org_id: u128, member_id: u128, role_id: u128) -> (q: Query)
    ensures
        q == role_change(assign, org_id, member_id, role_id),
{
    if assign {
        Query::AssignRole { role_id, user_id: member_id, org_id }
    } else {
        Query::DisassignRole { role_id, user_id: member_id, org_id }
    }
}

impl ChangingMemberRole {
    /// Goes on with an answer: a user who is not a member, or a role that is
    /// not the organization's, is not found; the `Owner` role cannot be taken
    /// away (a conflict); otherwise the change is stored.
    pub fn resume(self, answer: Answer) -> (r: Step<ChangingMemberRole, ()>)
        ensures
            propagates_failure(r, answer),
            match self {
                ChangingMemberRole::CheckingMembership { org_id, member_id, role_id, assign } => match answer {
                    Answer::Flag(false) => fails_with(r, AppError::NotFound),
                    Answer::Flag(true) => r == Step::<ChangingMemberRole, ()>::Ask(
                        ChangingMemberRole::FindingRole { org_id, member_id, role_id, assign },
                        Query::FindRole { org_id, role_id },
                    ),
                    Answer::Failed(_) => true,
                    _ => fails_with(r, AppError::InternalServerError),
                },
                ChangingMemberRole::FindingRole { org_id, member_id, role_id, assign } => match answer {
                    Answer::FoundRole(None) => fails_with(r, AppError::NotFound),
                    Answer::FoundRole(Some(_)) => if assign {
                        r == Step::<ChangingMemberRole, ()>::Ask(
                            ChangingMemberRole::Changing,
                            role_change(true, org_id, member_id, role_id),
                        )
                    } else {
                        r == Step::<ChangingMemberRole, ()>::Ask(
                            ChangingMemberRole::CheckingOwner { org_id, member_id, role_id },
                            Query::FindRole { org_id, role_id },
                        )
                    },
                    Answer::Failed(_) => true,
                    _ => fails_with(r, AppError::InternalServerError),
                },
                ChangingMemberRole::CheckingOwner { org_id, member_id, role_id } => match answer {
                    Answer::FoundRole(Some(role)) => if role.name@ == owner_role() {
                        r matches Step::Finish(Err(AppError::Conflict(m))) && m@
                            == "Owner trying to Remove Owner Role"@
                    } else {
                        r == Step::<ChangingMemberRole, ()>::Ask(
                            ChangingMemberRole::Changing,
                            role_change(false, org_id, member_id, role_id),
                        )
                    },
                    Answer::FoundRole(None) => r == Step::<ChangingMemberRole, ()>::Ask(
                        ChangingMemberRole::Changing,
                        role_change(false, org_id, member_id, role_id),
                    ),
                    Answer::Failed(_) => true,
                    _ => fails_with(r, AppError::InternalServerError),
                },
                ChangingMemberRole::Changing => match answer {
                    Answer::Done => r == Step::<ChangingMemberRole, ()>::Finish(Ok(())),
                    Answer::Failed(_) => true,
                    _ => fails_with(r, AppError::InternalServerError),
                },
            },
    {
        match self {
            ChangingMemberRole::CheckingMembership { org_id, member_id, role_id, assign } => match answer {
                Answer::Flag(false) => Step::Finish(Err(AppError::NotFound)),
                Answer::Flag(true) => Step::Ask(
                    ChangingMemberRole::FindingRole { org_id, member_id, role_id, assign },
                    Query::FindRole { org_id, role_id },
                ),
                Answer::Failed(e) => Step::Finish(Err(e)),
                _ => out_of_step(),
            },
            ChangingMemberRole::FindingRole { org_id, member_id, role_id, assign } => match answer {
                Answer::FoundRole(None) => Step::Finish(Err(AppError::NotFound)),
                Answer::FoundRole(Some(_)) => {
                    if assign {
                        Step::Ask(ChangingMemberRole::Changing, role_change_query(true, org_id, member_id, role_id))
                    } else {
                        Step::Ask(
                            ChangingMemberRole::CheckingOwner { org_id, member_id, role_id },
                            Query::FindRole { org_id, role_id },
                        )
                    }
                },
                Answer::Failed(e) => Step::Finish(Err(e)),
                _ => out_of_step(),
            },
            ChangingMemberRole::CheckingOwner { org_id, member_id, role_id } => match answer {
                Answer::FoundRole(Some(role)) => {
                    if is_owner(role.name.as_str()) {
                        Step::Finish(Err(AppError::Conflict(String::from_str("Owner trying to Remove Owner Role"))))
                    } else {
                        Step::Ask(ChangingMemberRole::Changing, role_change_query(false, org_id, member_id, role_id))
                    }
                },
                Answer::FoundRole(None) => Step::Ask(
                    ChangingMemberRole::Changing,
                    role_change_query(false, org_id, member_id, role_id),
                ),
                Answer::Failed(e) => Step::Finish(Err(e)),
                _ => out_of_step(),
            },
            ChangingMemberRole::Changing => match answer {
                Answer::Done => Step::Finish(Ok(())),
                Answer::Failed(e) => Step::Finish(Err(e)),
                _ => out_of_step(),
            },
        }
    }
}

} // verus!
