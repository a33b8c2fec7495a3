use iam_platform::cursor::encode_cursor;
use iam_platform::error::AppError;
use iam_platform::models::{AuditLogs, Organization};
use iam_platform::pagination::{audit_log_page, organization_page, resolve_page};
use iam_platform::time::Timestamp;

fn ts(s: i64) -> Timestamp {
    Timestamp::new(s, 0).unwrap()
}

fn log(id: u128, t: i64) -> AuditLogs {
    AuditLogs { id, actor_id: 1, action: "a".into(), resource: "r".into(), timestamp: ts(t) }
}

#[test]
fn page_defaults_and_bounds() {
    let p = resolve_page(&None, None, &None).unwrap();
    assert_eq!((p.limit, p.ascending, p.cursor), (10, false, None));
    let p = resolve_page(&None, Some(500), &Some("asc".into())).unwrap();
    assert_eq!((p.limit, p.ascending), (100, true));
    let p = resolve_page(&None, Some(-3), &Some("ASC".into())).unwrap();
    assert_eq!((p.limit, p.ascending), (-3, false));
    let c = encode_cursor(ts(1_000));
    let p = resolve_page(&Some(c), Some(5), &Some("desc".into())).unwrap();
    assert_eq!(p.cursor, Some(ts(1_000)));
    assert!(matches!(resolve_page(&Some("%%".into()), None, &None), Err(AppError::BadRequest(_))));
}

#[test]
fn full_pages_carry_the_next_cursor() {
    let p = resolve_page(&None, Some(2), &Some("asc".into())).unwrap();
    let page = audit_log_page(vec![log(1, 10), log(2, 20)], &p);
    assert_eq!(page.next_cursor, Some(encode_cursor(ts(20))));
    assert_eq!(page.order, "asc");
    assert_eq!(page.limit, 2);
    let page = audit_log_page(vec![log(1, 10)], &p);
    assert_eq!(page.next_cursor, None);
    assert_eq!(page.data.len(), 1);
}

#[test]
fn empty_and_zero_pages_have_no_cursor() {
    let p = resolve_page(&None, Some(0), &None).unwrap();
    let page = organization_page(vec![], &p);
    assert_eq!(page.next_cursor, None);
    assert_eq!(page.order, "desc");
    let p = resolve_page(&None, Some(1), &None).unwrap();
    let org = Organization { id: 3, name: "acme".into(), created_at: ts(99) };
    let page = organization_page(vec![org], &p);
    assert_eq!(page.next_cursor, Some(encode_cursor(ts(99))));
}

#[test]
fn next_cursor_continues_after_the_last_item() {
    let p = resolve_page(&None, Some(2), &None).unwrap();
    let page = audit_log_page(vec![log(1, 50), log(2, 40)], &p);
    let next = resolve_page(&page.next_cursor, Some(2), &None).unwrap();
    assert_eq!(next.cursor, Some(ts(40)));
    let later = Timestamp::new(1_700_000_000, 123_456_789).unwrap();
    let org = Organization { id: 9, name: "acme".into(), created_at: later };
    let p = resolve_page(&None, Some(1), &Some("asc".into())).unwrap();
    let page = organization_page(vec![org], &p);
    let next = resolve_page(&page.next_cursor, Some(1), &Some("asc".into())).unwrap();
    assert_eq!(next.cursor, Some(later));
}
