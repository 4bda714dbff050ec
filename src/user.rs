//! User records and the request bodies that carry credentials.

use vstd::prelude::*;
use crate::text::same_text;

verus! {

/// A stored user.  `pass` holds the password hash, never the password.
#[derive(Debug)]
pub struct User {
    pub uuid: String,
    pub username: String,
    pub pass: String,
    pub email: String,
    pub is_admin: bool,
}

/// The mathematical view of a stored user.
pub struct UserView {
    pub uuid: Seq<char>,
    pub username: Seq<char>,
    pub pass: Seq<char>,
    pub email: Seq<char>,
    pub is_admin: bool,
}

impl View for User {
    type V = UserView;

    open spec fn view(&self) -> UserView {
        UserView {
            uuid: self.uuid@,
            username: self.username@,
            pass: self.pass@,
            email: self.email@,
            is_admin: self.is_admin,
        }
    }
}

/// The public projection of a user: everything but the password hash.
#[derive(Debug)]
pub struct UserInfo {
    pub uuid: String,
    pub username: String,
    pub email: String,
    pub is_admin: bool,
}

/// The mathematical view of a public user projection.
pub struct UserInfoView {
    pub uuid: Seq<char>,
    pub username: Seq<char>,
    pub email: Seq<char>,
    pub is_admin: bool,
}

impl View for UserInfo {
    type V = UserInfoView;

    open spec fn view(&self) -> UserInfoView {
        UserInfoView {
            uuid: self.uuid@,
            username: self.username@,
            email: self.email@,
            is_admin: self.is_admin,
        }
    }
}

/// The public projection of a user view.
pub open spec fn info_of(u: UserView) -> UserInfoView {
    UserInfoView { uuid: u.uuid, username: u.username, email: u.email, is_admin: u.is_admin }
}

impl UserInfo {
    pub fn from_user(user: &User) -> (r: Self)
        ensures
            r@ == info_of(user@),
    {
        UserInfo {
            uuid: user.uuid.clone(),
            username: user.username.clone(),
            email: user.email.clone(),
            is_admin: user.is_admin,
        }
    }

    /// The empty projection.
    pub fn new() -> (r: Self)
        ensures
            r.uuid@.len() == 0,
            r.username@.len() == 0,
            r.email@.len() == 0,
            !r.is_admin,
    {
        UserInfo { uuid: String::new(), username: String::new(), email: String::new(), is_admin: false }
    }
}

/// The message that reports an unknown field name.
pub open spec fn key_not_found(key: Seq<char>) -> Seq<char> {
    "Key not found: "@ + key
}

fn key_not_found_message(key: &str) -> (r: String)
    ensures
        r@ == key_not_found(key@),
{
    let mut m = String::from_str("Key not found: ");
    m.append(key);
    m
}

/// The body of a registration request.
#[derive(Debug)]
pub struct RegisterUser {
    pub username: String,
    pub pass: String,
    pub email: String,
}

impl RegisterUser {
    /// A copy with the field named `key` set to `value`.
    pub fn update_field(&self, key: &str, value: String) -> (r: Result<Self, String>)
        ensures
            key@ == "username"@ ==> (r matches Ok(n) && n.username@ == value@ && n.pass@
                == self.pass@ && n.email@ == self.email@),
            key@ == "pass"@ ==> (r matches Ok(n) && n.username@ == self.username@ && n.pass@
                == value@ && n.email@ == self.email@),
            key@ == "email"@ ==> (r matches Ok(n) && n.username@ == self.username@ && n.pass@
                == self.pass@ && n.email@ == value@),
            key@ != "username"@ && key@ != "pass"@ && key@ != "email"@ ==> (r matches Err(m)
                && m@ == key_not_found(key@)),
    {
        let mut n = RegisterUser {
            username: self.username.clone(),
            pass: self.pass.clone(),
            email: self.email.clone(),
        };
        proof {
            reveal_strlit("username");
            reveal_strlit("pass");
            reveal_strlit("email");
            assert("pass"@.len() == 4 && "email"@.len() == 5 && "username"@.len() == 8);
        }
        if same_text(key, "username") {
            n.username = value;
        } else if same_text(key, "pass") {
            n.pass = value;
        } else if same_text(key, "email") {
            n.email = value;
        } else {
            return Err(key_not_found_message(key));
        }
        Ok(n)
    }
}

/// The body of a login request: a username or an email, and a password.
#[derive(Debug)]
pub struct LoginUser {
    pub username: String,
    pub pass: String,
}

impl LoginUser {
    /// A copy with the field named `key` set to `value`.
    pub fn update_field(&self, key: &str, value: String) -> (r: Result<Self, String>)
        ensures
            key@ == "username"@ ==> (r matches Ok(n) && n.username@ == value@ && n.pass@
                == self.pass@),
            key@ == "pass"@ ==> (r matches Ok(n) && n.username@ == self.username@ && n.pass@
                == value@),
            key@ != "username"@ && key@ != "pass"@ ==> (r matches Err(m) && m@ == key_not_found(
                key@,
            )),
    {
        let mut n = LoginUser { username: self.username.clone(), pass: self.pass.clone() };
        proof {
            reveal_strlit("username");
            reveal_strlit("pass");
            reveal_strlit("email");
            assert("pass"@.len() == 4 && "email"@.len() == 5 && "username"@.len() == 8);
        }
        if same_text(key, "username") {
            n.username = value;
        } else if same_text(key, "pass") {
            n.pass = value;
        } else {
            return Err(key_not_found_message(key));
        }
        Ok(n)
    }
}

/// The body of a password-reset submission.
#[derive(Debug)]
pub struct ResetUser {
    pub email_address: String,
    pub pass: String,
}

impl ResetUser {
    /// The empty submission.
    pub fn new(&self) -> (r: ResetUser)
        ensures
            r.email_address@.len() == 0,
            r.pass@.len() == 0,
    {
        ResetUser { email_address: String::new(), pass: String::new() }
    }

    /// A copy with the field named `key` set to `value`.
    pub fn update_field(&self, key: &str, value: String) -> (r: Result<Self, String>)
        ensures
            key@ == "pass"@ ==> (r matches Ok(n) && n.email_address@ == self.email_address@
                && n.pass@ == value@),
            key@ == "email"@ ==> (r matches Ok(n) && n.email_address@ == value@ && n.pass@
                == self.pass@),
            key@ != "pass"@ && key@ != "email"@ ==> (r matches Err(m) && m@ == key_not_found(
                key@,
            )),
    {
        let mut n = ResetUser { email_address: self.email_address.clone(), pass: self.pass.clone() };
        proof {
            reveal_strlit("pass");
            reveal_strlit("email");
            assert("pass"@.len() == 4 && "email"@.len() == 5);
        }
        if same_text(key, "pass") {
            n.pass = value;
        } else if same_text(key, "email") {
            n.email_address = value;
        } else {
            return Err(key_not_found_message(key));
        }
        Ok(n)
    }
}

} // verus!
