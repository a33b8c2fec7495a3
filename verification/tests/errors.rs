use iam_platform::error::AppError;
use iam_platform::flow::rows_changed;

#[test]
fn errors_map_to_statuses_and_texts() {
    let cases: Vec<(AppError, u16, Option<&str>)> = vec![
        (AppError::BadRequest("bad".into()), 400, Some("bad")),
        (AppError::Unauthorized, 401, Some("Unauthorized")),
        (AppError::Forbidden, 403, Some("Forbidden")),
        (AppError::NotFound, 404, Some("Not Found")),
        (AppError::Conflict("dup".into()), 409, Some("dup")),
        (AppError::Database, 500, Some("Data Base Error")),
        (AppError::InternalServerError, 500, Some("Internal Server Error")),
        (AppError::Validation(vec![]), 400, None),
    ];
    for (e, status, text) in cases {
        assert_eq!(e.status_code(), status);
        assert_eq!(e.message().as_deref(), text);
    }
}

#[test]
fn password_hash_errors_are_server_errors() {
    let err = match iam_platform::password::verify_password("x", "short") {
        Err(e) => e,
        Ok(_) => panic!("a malformed hash must fail"),
    };
    assert_eq!(err.status_code(), 500);
    assert_eq!(err.message().as_deref(), Some("Password hash Error"));
}

#[test]
fn unchanged_rows_are_not_found() {
    assert!(matches!(rows_changed(0), Err(AppError::NotFound)));
    assert!(rows_changed(3).is_ok());
}
