use vstd::prelude::*;
use vstd::string::*;
use crate::cursor::{cursor_instant, cursor_text, decode_cursor, encode_cursor};
use crate::error::AppError;
use crate::models::{AuditLogs, ListAuditLogs, ListOrgsRes, Organization};
use crate::time::{in_rfc3339_range, Timestamp};

verus! {

/// The page size used when none is asked for.
pub const DEFAULT_PAGE_LIMIT: i64 = 10;

/// The largest page size served.
pub const MAX_PAGE_LIMIT: i64 = 100;

/// How a listing is read once its parameters are settled.
#[derive(Clone, Copy, Debug, PartialEq, Eq, Structural)]
pub struct PageParams {
    /// The instant of the last item of the page before, if any: the page
    /// goes on from there.
    pub cursor: Option<Timestamp>,
    /// At most this many items.
    pub limit: i64,
    /// Oldest first when true, newest first otherwise.
    pub ascending: bool,
}

/// The page size of a request: the one asked for, 10 by default, at most 100.
pub open spec fn page_limit(limit: Option<i64>) -> i64 {
    let l = match limit {
        Some(l) => l,
        None => DEFAULT_PAGE_LIMIT,
    };
    if l < MAX_PAGE_LIMIT {
        l
    } else {
        MAX_PAGE_LIMIT
    }
}

/// Whether a request asks for oldest first: only the exact text `asc` does.
pub open spec fn asks_ascending(order: Option<String>) -> bool {
    order matches Some(o) && o@ == "asc"@
}

/// The text of a sort order.
pub open spec fn order_text(ascending: bool) -> Seq<char> {
    if ascending {
        "asc"@
    } else {
        "desc"@
    }
}

/// Whether a cursor is given and does not decode.
pub open spec fn cursor_fails(cursor: Option<String>) -> bool {
    cursor matches Some(c) && cursor_instant(c@) is None
}

/// Whether page parameters are the ones a request settles on: its page size
/// (10 by default, at most 100), its order, and the instant of its cursor.
pub open spec fn settled(p: PageParams, cursor: Option<String>, limit: Option<i64>, order: Option<String>) -> bool {
    &&& p.limit == page_limit(limit)
    &&& p.ascending == asks_ascending(order)
    &&& match cursor {
        Some(c) => cursor_instant(c@) matches Some(t) && p.cursor matches Some(pc) && pc@ == t,
        None => p.cursor is None,
    }
}

/// Whether an error is the bad request, with an empty message, that a
/// cursor which does not decode gives.
pub open spec fn is_cursor_error(e: AppError) -> bool {
    e matches AppError::BadRequest(m) && m@ == Seq::<char>::empty()
}

/// Settles the parameters of a listing: page size 10 by default and at most
/// 100, ascending only for `asc`, and the instant of the cursor. A cursor
/// that does not decode is a bad request with an empty message.
pub fn resolve_page(cursor: &Option<String>, limit: Option<i64>, order: &Option<String>) -> (r: Result<
    PageParams,
    AppError,
>)
    ensures
        match r {
            Ok(p) => !cursor_fails(*cursor) && settled(p, *cursor, limit, *order),
            Err(e) => cursor_fails(*cursor) && is_cursor_error(e),
        },
{
    let l = match limit {
        Some(l) => l,
        None => DEFAULT_PAGE_LIMIT,
    };
    let l = if l < MAX_PAGE_LIMIT {
        l
    } else {
        MAX_PAGE_LIMIT
    };
    let asc = "asc";
    proof {
        reveal_strlit("asc");
    }
    let ascending = match order {
        Some(o) => crate::text::same_text(o.as_str(), asc),
        None => false,
    };
    let decoded = match cursor {
        Some(c) => match decode_cursor(c.as_str()) {
            Ok(t) => Some(t),
            Err(e) => return Err(e),
        },
        None => None,
    };
    Ok(PageParams { cursor: decoded, limit: l, ascending })
}

/// The cursor of the page after one whose items have these timestamps: when
/// the page is full (it holds `limit` items, `limit` above zero), the cursor
/// of its last item; otherwise none, for there is nothing after it.
pub open spec fn next_cursor_of(stamps: Seq<Timestamp>, limit: i64) -> Option<Seq<char>> {
    if limit > 0 && stamps.len() == limit {
        Some(cursor_text(stamps.last()@))
    } else {
        None
    }
}

fn next_cursor(last: Option<Timestamp>, len: usize, limit: i64) -> (r: Option<String>)
    requires
        last is None <==> len == 0,
    ensures
        match r {
            Some(c) => {
                &&& limit > 0 && len == limit
                &&& last matches Some(t) && c@ == cursor_text(t@)
                &&& last matches Some(t) && (in_rfc3339_range(t@) ==> cursor_instant(c@) == Some(t@))
            },
            None => !(limit > 0 && len == limit),
        },
{
    if limit > 0 && len as u64 == limit as u64 {
        match last {
            Some(t) => Some(encode_cursor(t)),
            None => None,
        }
    } else {
        None
    }
}

/// Whether the next cursor of a page, if it has one, reads back as the
/// timestamp of the page's last item (for instants of years 0 to 9999
/// without a leap second).
pub open spec fn cursor_reads_back(next: Option<String>, stamps: Seq<Timestamp>) -> bool {
    next matches Some(c) ==> (in_rfc3339_range(stamps.last()@) ==> cursor_instant(c@) == Some(stamps.last()@))
}

/// The timestamps of audit-log entries.
pub open spec fn log_stamps(data: Seq<AuditLogs>) -> Seq<Timestamp> {
    data.map_values(|l: AuditLogs| l.timestamp)
}

/// The creation times of organizations.
pub open spec fn org_stamps(data: Seq<Organization>) -> Seq<Timestamp> {
    data.map_values(|o: Organization| o.created_at)
}

/// Whether a page of audit-log entries is the page of these entries under
/// these parameters.
pub open spec fn is_log_page(page: ListAuditLogs, data: Seq<AuditLogs>, params: PageParams) -> bool {
    &&& page.data@ == data
    &&& page.limit == params.limit
    &&& page.order@ == order_text(params.ascending)
    &&& match next_cursor_of(log_stamps(data), params.limit) {
        Some(c) => page.next_cursor matches Some(n) && n@ == c,
        None => page.next_cursor is None,
    }
    &&& cursor_reads_back(page.next_cursor, log_stamps(data))
}

/// Whether a page of organizations is the page of these organizations under
/// these parameters.
pub open spec fn is_org_page(page: ListOrgsRes, data: Seq<Organization>, params: PageParams) -> bool {
    &&& page.data@ == data
    &&& page.limit == params.limit
    &&& page.order@ == order_text(params.ascending)
    &&& match next_cursor_of(org_stamps(data), params.limit) {
        Some(c) => page.next_cursor matches Some(n) && n@ == c,
        None => page.next_cursor is None,
    }
    &&& cursor_reads_back(page.next_cursor, org_stamps(data))
}

fn order_name(ascending: bool) -> (s: String)
    ensures
        s@ == order_text(ascending),
{
    if ascending {
        String::from_str("asc")
    } else {
        String::from_str("desc")
    }
}

/// A page of audit-log entries with its next cursor, order and size.
pub fn audit_log_page(data: Vec<AuditLogs>, params: &PageParams) -> (page: ListAuditLogs)
    ensures
        is_log_page(page, data@, *params),
{
    let len = data.len();
    let last = if len > 0 {
        Some(data[len - 1].timestamp)
    } else {
        None
    };
    let next = next_cursor(last, len, params.limit);
    ListAuditLogs { data, next_cursor: next, order: order_name(params.ascending), limit: params.limit }
}

/// A page of organizations with its next cursor, order and size.
pub fn organization_page(data: Vec<Organization>, params: &PageParams) -> (page: ListOrgsRes)
    ensures
        is_org_page(page, data@, *params),
{
    let len = data.len();
    let last = if len > 0 {
        Some(data[len - 1].created_at)
    } else {
        None
    };
    let next = next_cursor(last, len, params.limit);
    ListOrgsRes { data, next_cursor: next, order: order_name(params.ascending), limit: params.limit }
}

/// Pages are never larger than 100 items, and hold 10 when no size is asked
/// for.
pub proof fn page_limit_is_bounded(limit: Option<i64>)
    ensures
        page_limit(limit) <= MAX_PAGE_LIMIT,
        limit is None ==> page_limit(limit) == DEFAULT_PAGE_LIMIT,
        (limit matches Some(l) && l <= MAX_PAGE_LIMIT) ==> page_limit(limit) == limit.unwrap(),
{
}

/// The next cursor of a page of audit-log entries, sent back with the next
/// request, is accepted and settles that request on the timestamp of the
/// page's last entry, so the listing goes on right after it.
pub proof fn next_log_cursor_continues_after_last(
    page: ListAuditLogs,
    data: Seq<AuditLogs>,
    params: PageParams,
    p: PageParams,
    limit: Option<i64>,
    order: Option<String>,
)
    requires
        is_log_page(page, data, params),
        page.next_cursor is Some,
        in_rfc3339_range(log_stamps(data).last()@),
    ensures
        !cursor_fails(page.next_cursor),
        settled(p, page.next_cursor, limit, order) ==> (p.cursor matches Some(c) && c@ == data.last().timestamp@),
{
}

/// The next cursor of a page of organizations, sent back with the next
/// request, is accepted and settles that request on the creation time of the
/// page's last organization.
pub proof fn next_org_cursor_continues_after_last(
    page: ListOrgsRes,
    data: Seq<Organization>,
    params: PageParams,
    p: PageParams,
    limit: Option<i64>,
    order: Option<String>,
)
    requires
        is_org_page(page, data, params),
        page.next_cursor is Some,
        in_rfc3339_range(org_stamps(data).last()@),
    ensures
        !cursor_fails(page.next_cursor),
        settled(p, page.next_cursor, limit, order) ==> (p.cursor matches Some(c) && c@ == data.last().created_at@),
{
}

/// A page of audit-log entries carries a next cursor exactly when it is full
/// (it holds `limit` entries, `limit` above zero), and the cursor is the one
/// of its last entry; a page with fewer entries ends the listing.
pub proof fn log_page_cursor_exactly_when_full(page: ListAuditLogs, data: Seq<AuditLogs>, params: PageParams)
    requires
        is_log_page(page, data, params),
    ensures
        page.next_cursor is Some <==> (params.limit > 0 && data.len() == params.limit),
        data.len() < params.limit ==> page.next_cursor is None,
        page.next_cursor matches Some(c) ==> c@ == cursor_text(data.last().timestamp@),
{
}

/// A page of organizations carries a next cursor exactly when it is full,
/// and the cursor is the one of its last organization; a page with fewer
/// organizations ends the listing.
pub proof fn org_page_cursor_exactly_when_full(page: ListOrgsRes, data: Seq<Organization>, params: PageParams)
    requires
        is_org_page(page, data, params),
    ensures
        page.next_cursor is Some <==> (params.limit > 0 && data.len() == params.limit),
        data.len() < params.limit ==> page.next_cursor is None,
        page.next_cursor matches Some(c) ==> c@ == cursor_text(data.last().created_at@),
{
}

} // verus!
