use authcore::claims::{AuthClaims, AuthRequesterClaims, TokenSettings};
use authcore::credentials::HashCost;
use authcore::error::AuthErrorType;
use authcore::reset::RESET_WINDOW;
use authcore::service::AuthService;
use authcore::user::{LoginUser, RegisterUser, ResetUser, User};

const NOW: u64 = 1_700_000_000;

fn service() -> AuthService {
    let settings = TokenSettings {
        secret: b"service-secret".to_vec(),
        domain: "https://example.com".to_string(),
        company: "Example".to_string(),
        access_lifetime: 300,
        session_lifetime: 86400,
    };
    AuthService::new(settings, HashCost::new(4).unwrap())
}

fn register(svc: &mut AuthService, user: &str, pass: &str, email: &str) -> Result<(authcore::user::UserInfo, authcore::token::AuthToken), authcore::error::AuthError> {
    let req = RegisterUser { username: user.to_string(), pass: pass.to_string(), email: email.to_string() };
    svc.register(&req, NOW)
}

fn login(svc: &AuthService, user: &str, pass: &str) -> Result<(authcore::user::UserInfo, authcore::token::AuthToken), authcore::error::AuthError> {
    svc.login(&LoginUser { username: user.to_string(), pass: pass.to_string() }, NOW + 1)
}

#[test]
fn scenario_register_login_reset() {
    let mut svc = service();
    let (info, token) = register(&mut svc, "alice", "p1", "a@x.com").unwrap();
    assert_eq!(info.username, "alice");
    assert_eq!(info.email, "a@x.com");
    assert!(!info.is_admin);
    assert_eq!(token.token_type, "Bearer");
    assert!(!token.access_token.is_empty());

    let err = login(&svc, "alice", "wrong").unwrap_err();
    assert_eq!(err.status(), 401);
    assert_eq!(err.error_type(), AuthErrorType::WrongCredentials);

    let key = svc.request_reset("a@x.com", NOW).unwrap();
    let reset = ResetUser { email_address: "a@x.com".to_string(), pass: "p2".to_string() };
    assert!(svc.reset_password(&key, &reset, NOW + 60).is_ok());

    assert!(login(&svc, "alice", "p2").is_ok());
    assert_eq!(login(&svc, "alice", "p1").unwrap_err().status(), 401);
}

#[test]
fn registered_token_names_the_new_user() {
    let mut svc = service();
    let (info, token) = register(&mut svc, "bob", "pw", "b@x.com").unwrap();
    let claims = AuthRequesterClaims::from_string(&token.access_token, &svc.settings, NOW).unwrap();
    assert_eq!(claims.sub, info.uuid);
    assert_eq!(claims.exp, NOW + 86400);
    let (again, _) = login(&svc, "bob", "pw").unwrap();
    assert_eq!(again.uuid, info.uuid);
    let (by_email, _) = login(&svc, "b@x.com", "pw").unwrap();
    assert_eq!(by_email.uuid, info.uuid);
}

#[test]
fn wrong_password_is_never_user_does_not_exist() {
    let mut svc = service();
    register(&mut svc, "carol", "right", "c@x.com").unwrap();
    for p in ["wrong", "Right", "right ", "x"] {
        assert_eq!(login(&svc, "carol", p).unwrap_err().error_type(), AuthErrorType::WrongCredentials);
    }
    assert_eq!(login(&svc, "nobody", "x").unwrap_err().error_type(), AuthErrorType::UserDoesNotExist);
    assert_eq!(login(&svc, "nobody", "x").unwrap_err().status(), 404);
    assert_eq!(login(&svc, "", "x").unwrap_err().error_type(), AuthErrorType::WrongCredentials);
    assert_eq!(login(&svc, "carol", "").unwrap_err().error_type(), AuthErrorType::WrongCredentials);
}

#[test]
fn registration_errors() {
    let mut svc = service();
    let e = register(&mut svc, "", "p", "d@x.com").unwrap_err();
    assert_eq!((e.error_type(), e.status()), (AuthErrorType::MissingFields, 400));
    let e = register(&mut svc, "dave", "p", "not-an-address").unwrap_err();
    assert_eq!((e.error_type(), e.status()), (AuthErrorType::InvalidEmail, 400));
    register(&mut svc, "dave", "p", "d@x.com").unwrap();
    let e = register(&mut svc, "dave", "q", "other@x.com").unwrap_err();
    assert_eq!((e.error_type(), e.status()), (AuthErrorType::UserAlreadyExists, 409));
    let e = register(&mut svc, "dave2", "q", "d@x.com").unwrap_err();
    assert_eq!(e.error_type(), AuthErrorType::UserAlreadyExists);
    assert_eq!(svc.users.len(), 1);
}

#[test]
fn register_with_given_uuid_and_hash() {
    let mut svc = service();
    let req = RegisterUser { username: "erin".to_string(), pass: "p".to_string(), email: "e@x.com".to_string() };
    let e = svc.register_with(&req, "u-1".to_string(), None, NOW).unwrap_err();
    assert_eq!(e.error_type(), AuthErrorType::ServerError);
    let (info, _) = svc.register_with(&req, "u-1".to_string(), Some("h".to_string()), NOW).unwrap();
    assert_eq!(info.uuid, "u-1");
    let other = RegisterUser { username: "fred".to_string(), pass: "p".to_string(), email: "f@x.com".to_string() };
    let e = svc.register_with(&other, "u-1".to_string(), Some("h".to_string()), NOW).unwrap_err();
    assert_eq!(e.error_type(), AuthErrorType::UserAlreadyExists);
}

#[test]
fn exchange_session_for_access_token() {
    let mut svc = service();
    let (info, token) = register(&mut svc, "gina", "p", "g@x.com").unwrap();
    let header = token.to_string();
    let access = svc.request_access_token(&header, NOW + 10).unwrap();
    assert_eq!(access.token_type, "Bearer");
    let claims = AuthClaims::from_string(&access.access_token, &svc.settings, NOW + 10).unwrap();
    assert_eq!(claims.sub, info.uuid);
    assert!(!claims.acc);
    assert_eq!(claims.exp, NOW + 10 + 300);
    let checked = svc.authenticate_access(&access.to_string(), NOW + 20).unwrap();
    assert_eq!(checked.sub, info.uuid);
}

#[test]
fn exchange_rejects_expired_tampered_and_unknown() {
    let mut svc = service();
    let (_, token) = register(&mut svc, "hank", "p", "h@x.com").unwrap();
    let raw = token.access_token.clone();
    let header = token.to_string();
    let e = svc.request_access_token(&header, NOW + 86400 + 6).unwrap_err();
    assert_eq!(e.error_type(), AuthErrorType::InvalidToken);
    let mut tampered = header.clone();
    let last = tampered.pop().unwrap();
    tampered.push(if last == 'A' { 'B' } else { 'A' });
    assert_eq!(svc.request_access_token(&tampered, NOW).unwrap_err().error_type(), AuthErrorType::InvalidToken);
    assert_eq!(svc.request_access_token(&raw, NOW).unwrap_err().error_type(), AuthErrorType::InvalidToken);
    let ghost = AuthRequesterClaims::new("ghost".to_string(), &svc.settings, NOW).unwrap();
    let ghost_header = ghost.generate_token(&svc.settings).unwrap().to_string();
    assert_eq!(svc.request_access_token(&ghost_header, NOW).unwrap_err().error_type(), AuthErrorType::AccessDenied);
}

#[test]
fn access_token_is_not_a_session_token() {
    let mut svc = service();
    let (_, token) = register(&mut svc, "ivan", "p", "i@x.com").unwrap();
    let header = token.to_string();
    let access = svc.request_access_token(&header, NOW).unwrap();
    assert!(svc.authenticate_session(&access.to_string(), NOW).is_err());
    assert!(svc.authenticate_access(&header, NOW).is_err());
}

#[test]
fn privileged_operations() {
    let mut svc = service();
    let (plain, _) = register(&mut svc, "jane", "p", "j@x.com").unwrap();
    assert!(svc.users.insert(User {
        uuid: "admin-1".to_string(),
        username: "root".to_string(),
        pass: "x".to_string(),
        email: "root@x.com".to_string(),
        is_admin: true,
    }));
    let admin_session = AuthRequesterClaims::new("admin-1".to_string(), &svc.settings, NOW).unwrap();
    let header = admin_session.generate_token(&svc.settings).unwrap().to_string();
    let access = svc.request_access_token(&header, NOW).unwrap();
    let admin = svc.authenticate_access(&access.to_string(), NOW).unwrap();
    assert!(admin.acc);
    let all = svc.all_user_info(&admin).unwrap();
    assert_eq!(all.len(), 2);
    assert_eq!(all[0].username, "jane");
    assert_eq!(all[1].username, "root");

    let user = AuthClaims::for_user(plain.uuid.clone(), false, &svc.settings, NOW).unwrap();
    assert_eq!(svc.all_user_info(&user).unwrap_err().error_type(), AuthErrorType::AccessDenied);
    assert_eq!(svc.delete_user(&user, "admin-1").unwrap_err().error_type(), AuthErrorType::AccessDenied);
    assert_eq!(svc.delete_user(&admin, "missing").unwrap_err().error_type(), AuthErrorType::UserDoesNotExist);
    assert!(svc.delete_user(&admin, &plain.uuid).is_ok());
    assert_eq!(svc.users.len(), 1);
}

#[test]
fn user_info_by_session_claims() {
    let mut svc = service();
    let (info, token) = register(&mut svc, "kim", "p", "k@x.com").unwrap();
    let claims = svc.authenticate_session(&token.to_string(), NOW).unwrap();
    let found = svc.user_info(&claims).unwrap();
    assert_eq!(found.uuid, info.uuid);
    assert_eq!(found.email, "k@x.com");
    let ghost = AuthRequesterClaims::new("nope".to_string(), &svc.settings, NOW).unwrap();
    assert_eq!(svc.user_info(&ghost).unwrap_err().error_type(), AuthErrorType::UserDoesNotExist);
}

#[test]
fn reset_key_window_and_email_binding() {
    let mut svc = service();
    register(&mut svc, "lena", "p", "l@x.com").unwrap();
    register(&mut svc, "mona", "p", "m@x.com").unwrap();
    let t = NOW;
    svc.request_reset_with("l@x.com", "k1".to_string(), t).unwrap();
    let body = ResetUser { email_address: "l@x.com".to_string(), pass: "n".to_string() };
    let late = svc.reset_password(&"k1", &body, t + 24 * 3600 + 60).unwrap_err();
    assert_eq!(late.error_type(), AuthErrorType::ResetLinkInvalid);
    let other = ResetUser { email_address: "m@x.com".to_string(), pass: "n".to_string() };
    assert_eq!(svc.reset_password("k1", &other, t).unwrap_err().error_type(), AuthErrorType::ResetLinkInvalid);
    assert!(svc.reset_password("k1", &body, t + 23 * 3600 + 59 * 60).is_ok());
    assert!(login(&svc, "lena", "n").is_ok());
}

#[test]
fn reset_key_works_exactly_at_one_day() {
    let mut svc = service();
    register(&mut svc, "nora", "p", "n@x.com").unwrap();
    svc.request_reset_with("n@x.com", "edge".to_string(), NOW).unwrap();
    let body = ResetUser { email_address: "n@x.com".to_string(), pass: "z".to_string() };
    assert_eq!(RESET_WINDOW, 86400);
    assert!(svc.reset_password("edge", &body, NOW + RESET_WINDOW + 1).is_err());
    assert!(svc.reset_password("edge", &body, NOW + RESET_WINDOW).is_ok());
}

#[test]
fn reset_key_is_single_use() {
    let mut svc = service();
    register(&mut svc, "olga", "p", "o@x.com").unwrap();
    let key = svc.request_reset("o@x.com", NOW).unwrap();
    assert_eq!(key.len(), 64);
    assert!(key.chars().all(|c| c.is_ascii_alphanumeric()));
    let body = ResetUser { email_address: "o@x.com".to_string(), pass: "new".to_string() };
    assert!(svc.reset_password(&key, &body, NOW + 1).is_ok());
    let again = svc.reset_password(&key, &body, NOW + 2).unwrap_err();
    assert_eq!(again.error_type(), AuthErrorType::ResetLinkInvalid);
}

#[test]
fn reset_request_errors() {
    let mut svc = service();
    register(&mut svc, "pete", "p", "p@x.com").unwrap();
    assert_eq!(svc.request_reset("bad address", NOW).unwrap_err().error_type(), AuthErrorType::InvalidEmail);
    assert_eq!(svc.request_reset("q@x.com", NOW).unwrap_err().error_type(), AuthErrorType::UserDoesNotExist);
    let body = ResetUser { email_address: "q@x.com".to_string(), pass: "n".to_string() };
    assert_eq!(svc.reset_password("k", &body, NOW).unwrap_err().error_type(), AuthErrorType::UserDoesNotExist);
    let body = ResetUser { email_address: "p@x.com".to_string(), pass: "n".to_string() };
    assert_eq!(svc.reset_password("unknown", &body, NOW).unwrap_err().error_type(), AuthErrorType::ResetLinkInvalid);
    svc.request_reset_with("p@x.com", "k".to_string(), NOW).unwrap();
    assert_eq!(svc.reset_password_with("k", &body, None, NOW).unwrap_err().error_type(), AuthErrorType::ServerError);
    assert!(svc.resets.get("k").is_some());
}

#[test]
fn reset_finds_the_user_by_email_only() {
    let mut svc = service();
    register(&mut svc, "amy", "old-a", "e@x.com").unwrap();
    register(&mut svc, "e@x.com", "old-b", "b@x.com").unwrap();
    let key = svc.request_reset("e@x.com", NOW).unwrap();
    let body = ResetUser { email_address: "e@x.com".to_string(), pass: "new-a".to_string() };
    assert!(svc.reset_password(&key, &body, NOW + 1).is_ok());
    assert!(login(&svc, "amy", "new-a").is_ok());
    assert!(login(&svc, "b@x.com", "old-b").is_ok());
    assert!(login(&svc, "b@x.com", "new-a").is_err());
}

#[test]
fn reset_allowed_changes_nothing() {
    let mut svc = service();
    register(&mut svc, "quin", "p", "q@x.com").unwrap();
    svc.request_reset_with("q@x.com", "kk".to_string(), NOW).unwrap();
    let i = svc.reset_allowed("kk", "q@x.com", NOW).unwrap();
    assert_eq!(svc.users.get(i).username, "quin");
    assert!(svc.resets.get("kk").is_some());
    assert_eq!(svc.reset_allowed("kk", "x@x.com", NOW).unwrap_err().error_type(), AuthErrorType::UserDoesNotExist);
    assert_eq!(svc.reset_allowed("zz", "q@x.com", NOW).unwrap_err().error_type(), AuthErrorType::ResetLinkInvalid);
    let hash = svc.hash_new_password("fresh").unwrap();
    assert_ne!(hash, "fresh");
}

#[test]
fn reset_link_text() {
    let svc = service();
    assert_eq!(svc.reset_url("abc", "a@x.com"), "https://example.com/reset?key=abc&email=a@x.com");
}
