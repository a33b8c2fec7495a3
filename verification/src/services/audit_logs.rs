use vstd::prelude::*;
use vstd::string::*;
use crate::encoding::{uuid_hyphenated, uuid_text};
use crate::error::AppError;
use crate::flow::{fails_with, out_of_step, Answer, Query, Step};
use crate::models::ListAuditLogs;
use crate::pagination::{audit_log_page, cursor_fails, is_cursor_error, is_log_page, resolve_page, settled, PageParams};
use crate::text::has_prefix;

verus! {

/// The resource prefix of everything that belongs to an organization:
/// `organization:` and the id of the organization.
pub open spec fn org_scope(org_id: u128) -> Seq<char> {
    "organization:"@ + uuid_hyphenated(org_id)
}

/// The resource of a member of an organization.
pub open spec fn member_resource_text(org_id: u128, member_id: u128) -> Seq<char> {
    org_scope(org_id) + "/member:"@ + uuid_hyphenated(member_id)
}

/// The resource of a role of an organization, by name.
pub open spec fn role_resource_text(org_id: u128, name: Seq<char>) -> Seq<char> {
    org_scope(org_id) + "/role:"@ + name
}

/// The resource prefix of an organization, as the organization's audit log
/// selects its entries by.
pub fn org_resource_prefix(org_id: u128) -> (s: String)
    ensures
        s@ == org_scope(org_id),
{
    let s = String::from_str("organization:");
    let id = uuid_text(org_id);
    s.concat(id.as_str())
}

/// The resource recorded when a member of an organization changes.
pub fn member_resource(org_id: u128, member_id: u128) -> (s: String)
    ensures
        s@ == member_resource_text(org_id, member_id),
{
    let s = org_resource_prefix(org_id);
    let s = s.concat("/member:");
    let id = uuid_text(member_id);
    s.concat(id.as_str())
}

/// The resource recorded when a role of an organization changes.
pub fn role_resource(org_id: u128, name: &str) -> (s: String)
    ensures
        s@ == role_resource_text(org_id, name@),
{
    let s = org_resource_prefix(org_id);
    let s = s.concat("/role:");
    s.concat(name)
}

/// What the service records about members and roles of an organization is
/// found again by the organization's audit log, which selects the entries
/// whose resource starts with the organization's prefix.
pub proof fn org_entries_are_in_org_log(org_id: u128, member_id: u128, role_name: Seq<char>)
    ensures
        has_prefix(member_resource_text(org_id, member_id), org_scope(org_id)),
        has_prefix(role_resource_text(org_id, role_name), org_scope(org_id)),
{
    let p = org_scope(org_id);
    let m = member_resource_text(org_id, member_id);
    let r = role_resource_text(org_id, role_name);
    assert(m.subrange(0, p.len() as int) =~= p);
    assert(r.subrange(0, p.len() as int) =~= p);
}

/// Listing audit-log entries, waiting for the page.
#[derive(Clone, Copy, Debug, PartialEq, Eq, Structural)]
pub struct ListingLogs {
    pub params: PageParams,
}

/// The step that asks for a page, or the error of a cursor that does not
/// decode.
pub open spec fn asks_page(r: Step<ListingLogs, ListAuditLogs>, cursor: Option<String>, limit: Option<i64>, order: Option<String>, query_fits: spec_fn(Query, PageParams) -> bool) -> bool {
    if cursor_fails(cursor) {
        r matches Step::Finish(Err(e)) && is_cursor_error(e)
    } else {
        r matches Step::Ask(s, q) && settled(s.params, cursor, limit, order) && query_fits(q, s.params)
    }
}

/// The entries recorded against a user, a page at a time: page size 10 by
/// default and at most 100, newest first unless `asc` is asked for, after
/// the cursor if one is given.
pub fn user_logs_service(user_id: u128, cursor: Option<String>, limit: Option<i64>, order: Option<String>) -> (r: Step<
    ListingLogs,
    ListAuditLogs,
>)
    ensures
        asks_page(
            r,
            cursor,
            limit,
            order,
            |q: Query, p: PageParams|
                q == Query::UserAuditLogs {
                    actor_id: user_id,
                    cursor: p.cursor,
                    limit: p.limit,
                    ascending: p.ascending,
                },
        ),
{
    match resolve_page(&cursor, limit, &order) {
        Err(e) => Step::Finish(Err(e)),
        Ok(params) => Step::Ask(
            ListingLogs { params },
            Query::UserAuditLogs {
                actor_id: user_id,
                cursor: params.cursor,
                limit: params.limit,
                ascending: params.ascending,
            },
        ),
    }
}

/// The entries recorded about an organization (whose resource starts with
/// the organization's prefix), a page at a time, as for a user's entries.
pub fn org_logs_service(org_id: u128, limit: Option<i64>, cursor: Option<String>, order: Option<String>) -> (r: Step<
    ListingLogs,
    ListAuditLogs,
>)
    ensures
        asks_page(
            r,
            cursor,
            limit,
            order,
            |q: Query, p: PageParams|
                q matches Query::OrgAuditLogs { resource_prefix, cursor: c, limit: l, ascending: a }
                    && resource_prefix@ == org_scope(org_id) && c == p.cursor && l == p.limit
                    && a == p.ascending,
        ),
{
    match resolve_page(&cursor, limit, &order) {
        Err(e) => Step::Finish(Err(e)),
        Ok(params) => Step::Ask(
            ListingLogs { params },
            Query::OrgAuditLogs {
                resource_prefix: org_resource_prefix(org_id),
                cursor: params.cursor,
                limit: params.limit,
                ascending: params.ascending,
            },
        ),
    }
}

/// Checking that a user may read an organization's audit log, waiting to
/// learn whether they are a member.
#[derive(Clone, Copy, Debug, PartialEq, Eq, Structural)]
pub struct CheckingLogAccess;

/// Only members of an organization read its audit log: first asks whether
/// the user is one.
pub fn org_log_access(user_id: u128, org_id: u128) -> (r: Step<CheckingLogAccess, ()>)
    ensures
        r == Step::<CheckingLogAccess, ()>::Ask(CheckingLogAccess, Query::CheckMembership { user_id, org_id }),
{
    Step::Ask(CheckingLogAccess, Query::CheckMembership { user_id, org_id })
}

impl CheckingLogAccess {
    /// Goes on with the answer: a member may read the log, anyone else is
    /// forbidden.
    pub fn resume(self, answer: Answer) -> (r: Step<CheckingLogAccess, ()>)
        ensures
            match answer {
                Answer::Flag(true) => r == Step::<CheckingLogAccess, ()>::Finish(Ok(())),
                Answer::Flag(false) => fails_with(r, AppError::Forbidden),
                Answer::Failed(e) => fails_with(r, e),
                _ => fails_with(r, AppError::InternalServerError),
            },
    {
        match answer {
            Answer::Flag(true) => Step::Finish(Ok(())),
            Answer::Flag(false) => Step::Finish(Err(AppError::Forbidden)),
            Answer::Failed(e) => Step::Finish(Err(e)),
            _ => out_of_step(),
        }
    }
}

impl ListingLogs {
    /// Goes on with the entries read: the page, with the cursor of the next
    /// page when this one is full.
    pub fn resume(self, answer: Answer) -> (r: Step<ListingLogs, ListAuditLogs>)
        ensures
            match answer {
                Answer::Logs(data) => r matches Step::Finish(Ok(page)) && is_log_page(page, data@, self.params),
                Answer::Failed(e) => fails_with(r, e),
                _ => fails_with(r, AppError::InternalServerError),
            },
    {
        match answer {
            Answer::Logs(data) => Step::Finish(Ok(audit_log_page(data, &self.params))),
            Answer::Failed(e) => Step::Finish(Err(e)),
            _ => out_of_step(),
        }
    }
}

} // verus!
