use authcore::user::{LoginUser, RegisterUser, ResetUser, User, UserInfo};

fn register_body() -> RegisterUser {
    RegisterUser { username: "u".to_string(), pass: "p".to_string(), email: "e@x.com".to_string() }
}

#[test]
fn register_update_field() {
    let r = register_body();
    let n = r.update_field("username", "alice".to_string()).unwrap();
    assert_eq!(n.username, "alice");
    assert_eq!(n.pass, "p");
    let n = r.update_field("pass", "secret".to_string()).unwrap();
    assert_eq!(n.pass, "secret");
    assert_eq!(n.username, "u");
    let n = r.update_field("email", "a@x.com".to_string()).unwrap();
    assert_eq!(n.email, "a@x.com");
    assert_eq!(r.update_field("name", "x".to_string()).unwrap_err(), "Key not found: name");
}

#[test]
fn login_update_field() {
    let l = LoginUser { username: "u".to_string(), pass: "p".to_string() };
    assert_eq!(l.update_field("username", "bob".to_string()).unwrap().username, "bob");
    assert_eq!(l.update_field("pass", "q".to_string()).unwrap().pass, "q");
    assert_eq!(l.update_field("email", "x".to_string()).unwrap_err(), "Key not found: email");
}

#[test]
fn reset_update_field() {
    let r = ResetUser { email_address: "a@x.com".to_string(), pass: "p".to_string() };
    let e = r.new();
    assert_eq!(e.email_address, "");
    assert_eq!(e.pass, "");
    assert_eq!(r.update_field("email", "b@x.com".to_string()).unwrap().email_address, "b@x.com");
    assert_eq!(r.update_field("pass", "n".to_string()).unwrap().pass, "n");
    assert_eq!(r.update_field("username", "z".to_string()).unwrap_err(), "Key not found: username");
}

#[test]
fn user_info_projection() {
    let u = User {
        uuid: "id-1".to_string(),
        username: "alice".to_string(),
        pass: "hash".to_string(),
        email: "a@x.com".to_string(),
        is_admin: true,
    };
    let i = UserInfo::from_user(&u);
    assert_eq!(i.uuid, "id-1");
    assert_eq!(i.username, "alice");
    assert_eq!(i.email, "a@x.com");
    assert!(i.is_admin);
    let empty = UserInfo::new();
    assert_eq!(empty.uuid, "");
    assert!(!empty.is_admin);
}
