use iam_platform::error::AppError;
use iam_platform::models::{Create, CreateApiRequest, CreateOrgReq, LoginReq, UpdateProfile};

fn fields(r: Result<(), AppError>) -> Vec<(String, String, String)> {
    match r {
        Ok(()) => vec![],
        Err(AppError::Validation(v)) => v.into_iter().map(|i| (i.field, i.code, i.message)).collect(),
        Err(e) => panic!("unexpected {:?}", e),
    }
}

#[test]
fn api_key_request_rules() {
    let ok = CreateApiRequest { name: "build".into(), permission_ids: vec![1], expires_in_dayes: None };
    assert!(ok.validate().is_ok());
    let bad = CreateApiRequest { name: "abcd".into(), permission_ids: vec![], expires_in_dayes: Some(3) };
    assert_eq!(
        fields(bad.validate()),
        vec![
            ("name".to_string(), "length".to_string(), "Name Can't be Empty".to_string()),
            (
                "permission_ids".to_string(),
                "length".to_string(),
                "There Must be atleast One Scope".to_string()
            ),
        ]
    );
    let accented = CreateApiRequest { name: "ééééé".into(), permission_ids: vec![2], expires_in_dayes: None };
    assert!(accented.validate().is_ok());
}

#[test]
fn organization_name_rules() {
    assert!(CreateOrgReq { name: "a".into() }.validate().is_ok());
    assert!(CreateOrgReq { name: "x".repeat(100) }.validate().is_ok());
    assert_eq!(fields(CreateOrgReq { name: "".into() }.validate()).len(), 1);
    assert_eq!(fields(CreateOrgReq { name: "x".repeat(101) }.validate())[0].2, "name is required");
}

#[test]
fn registration_rules() {
    let ok = Create { email: "a@example.com".into(), password: "12345678".into(), name: "Ann".into() };
    assert!(ok.validate().is_ok());
    let bad = Create { email: "nope".into(), password: "short".into(), name: "".into() };
    let f = fields(bad.validate());
    assert_eq!(f.iter().map(|x| x.0.as_str()).collect::<Vec<_>>(), vec!["email", "password", "name"]);
    assert_eq!(f[0].1, "email");
    assert_eq!(f[0].2, "must be a valid email");
}

#[test]
fn login_and_profile_rules() {
    assert!(LoginReq { email: "b@example.org".into(), password: "longenough".into() }.validate().is_ok());
    assert_eq!(fields(LoginReq { email: "b@example.org".into(), password: "7chars!".into() }.validate()).len(), 1);
    assert!(UpdateProfile { name: "x".repeat(50) }.validate().is_ok());
    assert!(UpdateProfile { name: "x".repeat(51) }.validate().is_err());
}
