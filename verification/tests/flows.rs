use iam_platform::auth::{ApiKeyRecord, AuthActor, AuthContext, Claims};
use iam_platform::error::AppError;
use iam_platform::flow::{Answer, Query, Step};
use iam_platform::models::{Create, LoginReq, Role, Session};
use iam_platform::services::access::{auth, resolver_actor};
use iam_platform::services::api_key::{all_api_keys_service, create_api_key_now, create_api_key_service, expiry_fits, CreatingApiKey};
use iam_platform::services::audit_logs::{member_resource, org_log_access, org_logs_service, org_resource_prefix, role_resource, user_logs_service};
use iam_platform::services::membership::{add_member_services, assign_role_service, disassign_role_service, remove_member_service, return_member_role_service};
use iam_platform::services::organization::create_organization;
use iam_platform::services::permission::assign_permissions_service;
use iam_platform::services::role::{create_role_service, delete_role_service, update_role_service};
use iam_platform::services::session::list_sessions;
use iam_platform::services::user::{login, refresh, register};
use iam_platform::time::{Timestamp, MAX_UNIX_SECONDS};

const ORG: u128 = 0x0123_4567_89ab_cdef_0123_4567_89ab_cdef;

fn ask<S, T>(s: Step<S, T>) -> (S, Query) {
    match s {
        Step::Ask(st, q) => (st, q),
        Step::Finish(_) => panic!("expected a query"),
    }
}

fn done<S, T>(s: Step<S, T>) -> Result<T, AppError> {
    match s {
        Step::Finish(r) => r,
        Step::Ask(_, q) => panic!("expected an end, got {:?}", q),
    }
}

#[test]
fn user_needs_the_permission() {
    let user = AuthContext::User(Claims { sub: 7, exp: 0 });
    let (st, q) = ask(resolver_actor(&user, Some("member:add"), ORG));
    assert!(matches!(q, Query::CheckPermission { user_id: 7, org_id: ORG, ref permission } if permission == "member:add"));
    assert!(matches!(done(st.resume(Answer::Flag(false))), Err(AppError::Forbidden)));
    let (st, _) = ask(resolver_actor(&user, Some("member:add"), ORG));
    assert_eq!(done(st.resume(Answer::Flag(true))).unwrap(), AuthActor { actor_id: 7, user_id: Some(7) });
    assert!(done(resolver_actor(&user, None, ORG)).is_ok());
}

#[test]
fn api_keys_stay_in_their_org_and_scope() {
    let key = AuthContext::ApiKey(ApiKeyRecord { id: 3, org_id: ORG, scopes: vec!["role:create".into()] });
    assert!(done(resolver_actor(&key, Some("role:create"), ORG)).is_ok());
    assert!(matches!(done(resolver_actor(&key, Some("role:delete"), ORG)), Err(AppError::Forbidden)));
    assert!(matches!(done(resolver_actor(&key, None, ORG + 1)), Err(AppError::Forbidden)));
    assert_eq!(done(resolver_actor(&key, None, ORG)).unwrap(), AuthActor { actor_id: 3, user_id: None });
}

#[test]
fn middleware_routes_credentials() {
    assert!(matches!(done(auth(None)), Err(AppError::Unauthorized)));
    let (st, q) = ask(auth(Some("Bearer iam_abc")));
    assert!(matches!(q, Query::ValidateApiKey { ref key_hash } if *key_hash == iam_platform::auth::hash_key("iam_abc")));
    assert!(matches!(done(st.resume(Answer::Failed(AppError::Unauthorized))), Err(AppError::Database)));
    let (st, q) = ask(auth(Some("Bearer some.jwt.token")));
    assert!(matches!(q, Query::VerifyAccessToken { ref token } if token == "some.jwt.token"));
    let ctx = done(st.resume(Answer::TokenClaims(Claims { sub: 1, exp: 2 }))).unwrap();
    assert!(matches!(ctx, AuthContext::User(Claims { sub: 1, exp: 2 })));
    let (st, _) = ask(auth(Some("Bearer some.jwt.token")));
    assert!(matches!(done(st.resume(Answer::Failed(AppError::Database))), Err(AppError::Unauthorized)));
}

#[test]
fn resources_name_the_organization() {
    assert_eq!(org_resource_prefix(ORG), "organization:01234567-89ab-cdef-0123-456789abcdef");
    assert_eq!(
        member_resource(ORG, 1),
        "organization:01234567-89ab-cdef-0123-456789abcdef/member:00000000-0000-0000-0000-000000000001"
    );
    assert_eq!(role_resource(ORG, "Admin"), "organization:01234567-89ab-cdef-0123-456789abcdef/role:Admin");
}

#[test]
fn adding_a_member_scenario() {
    let (st, q) = ask(add_member_services("m@x.io".into(), 9, ORG));
    assert!(matches!(q, Query::CheckEmail { ref email } if email == "m@x.io"));
    let (st, q) = ask(st.resume(Answer::Flag(true)));
    assert!(matches!(q, Query::FindUserByEmail { .. }));
    let (st, q) = ask(st.resume(Answer::Credentials { user_id: 11, password_hash: "h".into() }));
    assert!(matches!(q, Query::CheckMembership { user_id: 11, org_id: ORG }));
    let (st, q) = ask(st.resume(Answer::Flag(false)));
    assert!(matches!(q, Query::AddMember { org_id: ORG, user_id: 11 }));
    let (st, q) = ask(st.resume(Answer::Done));
    match q {
        Query::WriteAuditLog { action, actor_id, resource } => {
            assert_eq!(action, "member:added");
            assert_eq!(actor_id, 9);
            assert_eq!(resource, member_resource(ORG, 11));
        }
        other => panic!("unexpected {:?}", other),
    }
    assert!(done(st.resume(Answer::Failed(AppError::Database))).is_ok());
}

#[test]
fn adding_a_member_refusals() {
    let (st, _) = ask(add_member_services("m@x.io".into(), 9, ORG));
    assert!(matches!(done(st.resume(Answer::Flag(false))), Err(AppError::NotFound)));
    let (st, _) = ask(add_member_services("m@x.io".into(), 9, ORG));
    let (st, _) = ask(st.resume(Answer::Flag(true)));
    let (st, _) = ask(st.resume(Answer::Credentials { user_id: 11, password_hash: "h".into() }));
    match done(st.resume(Answer::Flag(true))) {
        Err(AppError::Conflict(m)) => assert_eq!(m, "Member Already Exist"),
        other => panic!("unexpected {:?}", other),
    }
    let (st, _) = ask(add_member_services("m@x.io".into(), 9, ORG));
    assert!(matches!(done(st.resume(Answer::Done)), Err(AppError::InternalServerError)));
}

#[test]
fn members_cannot_remove_themselves_or_the_owner() {
    let me = AuthActor { actor_id: 4, user_id: Some(4) };
    assert!(matches!(done(remove_member_service(&me, 4, ORG)), Err(AppError::Forbidden)));
    let (st, q) = ask(remove_member_service(&me, 5, ORG));
    assert!(matches!(q, Query::MemberRole { org_id: ORG, user_id: 5 }));
    assert!(matches!(done(st.resume(Answer::Text("Owner".into()))), Err(AppError::Forbidden)));
    let (st, _) = ask(remove_member_service(&me, 5, ORG));
    let (st, q) = ask(st.resume(Answer::Text("owner".into())));
    assert!(matches!(q, Query::DeleteMember { org_id: ORG, user_id: 5 }));
    assert!(matches!(done(st.resume(Answer::Failed(AppError::NotFound))), Err(AppError::NotFound)));
    let key = AuthActor { actor_id: 4, user_id: None };
    assert!(matches!(ask(remove_member_service(&key, 4, ORG)).1, Query::MemberRole { .. }));
}

#[test]
fn role_changes_of_members() {
    let (st, _) = ask(assign_role_service(ORG, 1, 2, 3));
    assert!(matches!(done(st.resume(Answer::Flag(false))), Err(AppError::NotFound)));
    let (st, _) = ask(assign_role_service(ORG, 1, 2, 3));
    let (st, q) = ask(st.resume(Answer::Flag(true)));
    assert!(matches!(q, Query::FindRole { org_id: ORG, role_id: 3 }));
    let (st, q) = ask(st.resume(Answer::FoundRole(Some(Role { name: "Owner".into() }))));
    assert!(matches!(q, Query::AssignRole { role_id: 3, user_id: 2, org_id: ORG }));
    assert!(done(st.resume(Answer::Done)).is_ok());

    let (st, _) = ask(disassign_role_service(ORG, 1, 2, 3));
    let (st, _) = ask(st.resume(Answer::Flag(true)));
    let (st, q) = ask(st.resume(Answer::FoundRole(Some(Role { name: "Owner".into() }))));
    assert!(matches!(q, Query::FindRole { .. }));
    match done(st.resume(Answer::FoundRole(Some(Role { name: "Owner".into() })))) {
        Err(AppError::Conflict(m)) => assert_eq!(m, "Owner trying to Remove Owner Role"),
        other => panic!("unexpected {:?}", other),
    }
    let (st, _) = ask(disassign_role_service(ORG, 1, 2, 3));
    let (st, _) = ask(st.resume(Answer::Flag(true)));
    assert!(matches!(done(st.resume(Answer::FoundRole(None))), Err(AppError::NotFound)));
}

#[test]
fn owner_role_is_protected() {
    let (st, _) = ask(update_role_service(ORG, 1, 2, "new".into()));
    assert!(matches!(done(st.resume(Answer::FoundRole(Some(Role { name: "Owner".into() })))), Err(AppError::Forbidden)));
    let (st, _) = ask(delete_role_service(ORG, 1, 2));
    assert!(matches!(done(st.resume(Answer::FoundRole(Some(Role { name: "Owner".into() })))), Err(AppError::Forbidden)));
    let (st, _) = ask(delete_role_service(ORG, 1, 2));
    let (st, q) = ask(st.resume(Answer::FoundRole(Some(Role { name: "viewer".into() }))));
    assert!(matches!(q, Query::RoleInUse { role_id: 2 }));
    match done(st.resume(Answer::Flag(true))) {
        Err(AppError::Conflict(m)) => assert_eq!(m, "Role is in Use"),
        other => panic!("unexpected {:?}", other),
    }
    let (st, _) = ask(delete_role_service(ORG, 1, 2));
    let (st, _) = ask(st.resume(Answer::FoundRole(Some(Role { name: "viewer".into() }))));
    let (st, q) = ask(st.resume(Answer::Flag(false)));
    assert!(matches!(q, Query::DeleteRole { org_id: ORG, role_id: 2 }));
    let (st, q) = ask(st.resume(Answer::Done));
    assert!(matches!(q, Query::WriteAuditLog { ref action, ref resource, .. } if action == "role:delete" && *resource == role_resource(ORG, "viewer")));
    assert!(done(st.resume(Answer::Done)).is_ok());
}

#[test]
fn creating_a_role_checks_the_lowercase_name() {
    let (st, q) = ask(create_role_service(8, "Admin".into(), ORG));
    assert!(matches!(q, Query::RoleExists { org_id: ORG, ref name } if name == "admin"));
    let (st, q) = ask(st.resume(Answer::Flag(false)));
    assert!(matches!(q, Query::CreateRole { org_id: ORG, ref name } if name == "Admin"));
    let (st, q) = ask(st.resume(Answer::Id(55)));
    assert!(matches!(q, Query::WriteAuditLog { ref action, actor_id: 8, .. } if action == "role:created"));
    assert_eq!(done(st.resume(Answer::Done)).unwrap(), 55);
    let (st, _) = ask(create_role_service(8, "Admin".into(), ORG));
    assert!(matches!(done(st.resume(Answer::Flag(true))), Err(AppError::Conflict(_))));
}

#[test]
fn permission_changes_need_ids_and_the_right() {
    match done(assign_permissions_service(vec![], 1, 2, ORG)) {
        Err(AppError::BadRequest(m)) => assert_eq!(m, "No Permission Provided"),
        other => panic!("unexpected {:?}", other),
    }
    let (st, q) = ask(assign_permissions_service(vec![5], 1, 2, ORG));
    assert!(matches!(q, Query::CheckPermission { user_id: 2, ref permission, .. } if permission == "permission:assign"));
    assert!(matches!(done(st.resume(Answer::Flag(false))), Err(AppError::Forbidden)));
}

#[test]
fn creating_an_api_key_stores_only_its_hash() {
    let now = Timestamp::new(1_000_000, 0).unwrap();
    let (st, q) = ask(create_api_key_service(1, ORG, "build key".into(), vec![4], None, now));
    assert!(matches!(q, Query::CheckPermission { ref permission, .. } if permission == "api_key:create"));
    let (st, q) = ask(st.resume(Answer::Flag(true)));
    let raw = match &st {
        CreatingApiKey::Inserting { raw_key } => raw_key.clone(),
        other => panic!("unexpected {:?}", other),
    };
    match q {
        Query::InsertApiKey { org_id, key_hash, expires_at, .. } => {
            assert_eq!(org_id, ORG);
            assert_eq!(key_hash, iam_platform::auth::hash_key(&raw));
            assert_eq!(expires_at, Timestamp::new(1_000_000 + 30 * 86400, 0).unwrap());
        }
        other => panic!("unexpected {:?}", other),
    }
    let created = iam_platform::models::CreatedApiKey { id: 12, name: "build key".into(), expires_at: now };
    let resp = done(st.resume(Answer::CreatedKey(created))).unwrap();
    assert_eq!(resp.raw_key, raw);
    let (st, _) = ask(all_api_keys_service(1, ORG));
    assert!(matches!(done(st.resume(Answer::Flag(false))), Err(AppError::Forbidden)));
}

#[test]
fn log_listings_ask_the_right_page() {
    let (_, q) = ask(user_logs_service(3, None, Some(1000), None));
    assert!(matches!(q, Query::UserAuditLogs { actor_id: 3, cursor: None, limit: 100, ascending: false }));
    let (_, q) = ask(org_logs_service(ORG, None, None, Some("asc".into())));
    assert!(matches!(q, Query::OrgAuditLogs { ref resource_prefix, limit: 10, ascending: true, .. } if *resource_prefix == org_resource_prefix(ORG)));
    assert!(matches!(done(user_logs_service(3, Some("!!".into()), None, None)), Err(AppError::BadRequest(_))));
}

#[test]
fn only_members_read_the_org_log() {
    let (st, q) = ask(org_log_access(5, ORG));
    assert!(matches!(q, Query::CheckMembership { user_id: 5, org_id: ORG }));
    assert!(matches!(done(st.resume(Answer::Flag(false))), Err(AppError::Forbidden)));
    let (st, _) = ask(org_log_access(5, ORG));
    assert!(done(st.resume(Answer::Flag(true))).is_ok());
    let (st, _) = ask(org_log_access(5, ORG));
    assert!(matches!(done(st.resume(Answer::Failed(AppError::Database))), Err(AppError::Database)));
}

#[test]
fn sessions_mark_the_current_device() {
    let (st, _) = ask(list_sessions(1, "phone".into()));
    assert!(matches!(done(st.resume(Answer::MaybeId(None))), Err(AppError::Unauthorized)));
    let (st, _) = ask(list_sessions(1, "phone".into()));
    let (st, q) = ask(st.resume(Answer::MaybeId(Some(20))));
    assert!(matches!(q, Query::ListSessions { user_id: 1 }));
    let t = Timestamp::new(0, 0).unwrap();
    let s = |id: u128| Session { id, device: "laptop".into(), ip: "1.2.3.4".into(), created_at: t, expires_at: t, is_revoked: false };
    let out = done(st.resume(Answer::Sessions(vec![s(10), s(20), s(30)]))).unwrap();
    assert_eq!(out.iter().map(|x| x.is_current).collect::<Vec<_>>(), vec![false, true, false]);
    assert!(out.iter().all(|x| x.device == "phone"));
}

#[test]
fn registration_and_sign_in_scenario() {
    let req = Create { email: "u@x.io".into(), password: "password1".into(), name: "U".into() };
    let (st, _) = ask(register(req));
    let (st, q) = ask(st.resume(Answer::Flag(false)));
    let stored = match q {
        Query::CreateUser { email, password_hash, .. } => {
            assert_eq!(email, "u@x.io");
            assert_eq!(password_hash.len(), 60);
            assert_ne!(password_hash, "password1");
            password_hash
        }
        other => panic!("unexpected {:?}", other),
    };
    assert!(done(st.resume(Answer::Done)).is_ok());

    let (st, _) = ask(login(LoginReq { email: "u@x.io".into(), password: "password1".into() }, "10.0.0.1".into(), "phone".into()));
    let (st, q) = ask(st.resume(Answer::Credentials { user_id: 6, password_hash: stored.clone() }));
    assert!(matches!(q, Query::FindActiveSession { user_id: 6, ref device } if device == "phone"));
    let (st, q) = ask(st.resume(Answer::MaybeId(None)));
    let token = match q {
        Query::CreateSession { refresh_token, .. } => refresh_token,
        other => panic!("unexpected {:?}", other),
    };
    assert_eq!(token.len(), 64);
    let (st, q) = ask(st.resume(Answer::Done));
    assert!(matches!(q, Query::IssueAccessToken { user_id: 6 }));
    let res = done(st.resume(Answer::Text("jwt".into()))).unwrap();
    assert_eq!((res.access_token.as_str(), res.refresh_token.as_str(), res.expires_in), ("jwt", token.as_str(), 900));

    let (st, _) = ask(login(LoginReq { email: "u@x.io".into(), password: "wrong-one".into() }, "ip".into(), "d".into()));
    assert!(matches!(done(st.resume(Answer::Credentials { user_id: 6, password_hash: stored })), Err(AppError::Unauthorized)));

    let (st, _) = ask(register(Create { email: "u@x.io".into(), password: "p".into(), name: "n".into() }));
    assert!(matches!(done(st.resume(Answer::Flag(true))), Err(AppError::Conflict(_))));
}

#[test]
fn refresh_rotates_the_token() {
    let (st, q) = ask(refresh("old".into(), "ip".into()));
    assert!(matches!(q, Query::FindSessionByRefreshToken { ref refresh_token } if refresh_token == "old"));
    let week = Timestamp::new(iam_platform::time::current_time().secs() + 7 * 86_400, 0).unwrap();
    let (st, q) = ask(st.resume(Answer::SessionOwner { session_id: 2, user_id: 3, is_revoked: false, expires_at: week }));
    assert!(matches!(q, Query::UpdateSession { session_id: 2, ref refresh_token, .. } if refresh_token.len() == 64 && refresh_token != "old"));
    let (st, _) = ask(st.resume(Answer::Done));
    assert_eq!(done(st.resume(Answer::Text("a".into()))).unwrap().expires_in, 900);
}

#[test]
fn organization_creation_scenario() {
    let (st, q) = ask(create_organization(1, "Acme".into()));
    assert!(matches!(q, Query::InsertOrganization { ref name, created_by: 1 } if name == "Acme"));
    let (st, q) = ask(st.resume(Answer::Id(ORG)));
    assert!(matches!(q, Query::AddMember { org_id: ORG, user_id: 1 }));
    let (st, q) = ask(st.resume(Answer::Done));
    assert!(matches!(q, Query::CreateRole { org_id: ORG, ref name } if name == "Owner"));
    let (st, q) = ask(st.resume(Answer::Id(40)));
    assert!(matches!(q, Query::GrantAllPermissions { role_id: 40 }));
    let (st, q) = ask(st.resume(Answer::Done));
    assert!(matches!(q, Query::AssignRole { role_id: 40, user_id: 1, org_id: ORG }));
    assert_eq!(done(st.resume(Answer::Done)).unwrap(), ORG);
}

#[test]
fn creating_a_key_now_reads_the_clock() {
    let (now, step) = create_api_key_now(1, ORG, "deploy".into(), vec![5], Some(7));
    let (st, q) = ask(step.unwrap());
    assert!(matches!(q, Query::CheckPermission { user_id: 1, org_id: ORG, ref permission } if permission == "api_key:create"));
    assert!(matches!(st, CreatingApiKey::CheckingPermission { now: n, expires_in_days: Some(7), .. } if n == now));
    let (_, step) = create_api_key_now(1, ORG, "deploy".into(), vec![5], Some(i64::MAX));
    assert!(step.is_none());
}

#[test]
fn key_expiry_must_fit_the_calendar() {
    let epoch = Timestamp::new(0, 0).unwrap();
    assert!(expiry_fits(epoch, None));
    assert!(expiry_fits(epoch, Some(-30)));
    assert!(!expiry_fits(epoch, Some(200_000_000)));
    assert!(!expiry_fits(epoch, Some(i64::MIN)));
    let late = Timestamp::new(MAX_UNIX_SECONDS - 86_400, 0).unwrap();
    assert!(expiry_fits(late, Some(1)));
    assert!(!expiry_fits(late, Some(2)));
}

#[test]
fn missing_rows_are_refused() {
    let req = LoginReq { email: "nobody@example.com".into(), password: "password1".into() };
    let (st, _) = ask(login(req, "10.0.0.1".into(), "laptop".into()));
    assert!(matches!(done(st.resume(Answer::Missing)), Err(AppError::Unauthorized)));
    let (st, _) = ask(refresh("stale".into(), "10.0.0.1".into()));
    assert!(matches!(done(st.resume(Answer::Missing)), Err(AppError::Unauthorized)));
    let (st, _) = ask(auth(Some("Bearer iam_unknown")));
    assert!(matches!(done(st.resume(Answer::Missing)), Err(AppError::Database)));
    let key = AuthActor { actor_id: 9, user_id: None };
    let (st, _) = ask(return_member_role_service(4, ORG, &key));
    assert!(matches!(done(st.resume(Answer::Missing)), Err(AppError::NotFound)));
    let actor = AuthActor { actor_id: 9, user_id: Some(9) };
    let (st, _) = ask(remove_member_service(&actor, 4, ORG));
    assert!(matches!(done(st.resume(Answer::Missing)), Err(AppError::NotFound)));
    let (st, _) = ask(add_member_services("x@example.com".into(), 9, ORG));
    let (st, _) = ask(st.resume(Answer::Flag(true)));
    assert!(matches!(done(st.resume(Answer::Missing)), Err(AppError::Unauthorized)));
}

#[test]
fn revoked_or_expired_sessions_are_not_refreshed() {
    let now = iam_platform::time::current_time().secs();
    let later = Timestamp::new(now + 3_600, 0).unwrap();
    let earlier = Timestamp::new(now - 3_600, 0).unwrap();
    let (st, _) = ask(refresh("t".into(), "ip".into()));
    assert!(matches!(
        done(st.resume(Answer::SessionOwner { session_id: 2, user_id: 3, is_revoked: true, expires_at: later })),
        Err(AppError::Unauthorized)
    ));
    let (st, _) = ask(refresh("t".into(), "ip".into()));
    assert!(matches!(
        done(st.resume(Answer::SessionOwner { session_id: 2, user_id: 3, is_revoked: false, expires_at: earlier })),
        Err(AppError::Unauthorized)
    ));
}

#[test]
fn only_members_read_a_members_role() {
    let user = AuthActor { actor_id: 5, user_id: Some(5) };
    let (st, q) = ask(return_member_role_service(4, ORG, &user));
    assert!(matches!(q, Query::CheckMembership { user_id: 5, org_id: ORG }));
    assert!(matches!(done(st.resume(Answer::Flag(false))), Err(AppError::Forbidden)));
    let (st, _) = ask(return_member_role_service(4, ORG, &user));
    let (st, q) = ask(st.resume(Answer::Flag(true)));
    assert!(matches!(q, Query::MemberRole { org_id: ORG, user_id: 4 }));
    assert_eq!(done(st.resume(Answer::Text("Owner".into()))).unwrap(), "Owner");
}
