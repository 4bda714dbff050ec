//! The decisions of the chat relay: who may join, what is broadcast, and when
//! a connection's relay stops.  Sockets and channels stay with the caller.

use vstd::prelude::*;
use crate::claims::{accepts, session_check, session_jwt, AuthRequesterClaims, SessionView};
use crate::service::AuthService;
use crate::store::uuid_index;

verus! {

/// The username of the chat participant whose first message is `first`: the
/// text must be a valid session token of a stored user.
pub fn chat_username(service: &AuthService, first: &str, now: u64) -> (r: Option<String>)
    ensures
        match session_check(service.settings, first@, now) {
            Some(m) => match uuid_index(service.users@, m.sub) {
                Some(i) => r is Some && r.unwrap()@ == service.users@[i].username,
                None => r is None,
            },
            None => r is None,
        },
        forall|m: SessionView|
            #![trigger session_jwt(service.settings.secret@, m)]
            first@ == session_jwt(service.settings.secret@, m) && accepts(
                service.settings,
                m.aud,
                m.com,
                m.exp,
                now,
            ) ==> match uuid_index(service.users@, m.sub) {
                Some(i) => r is Some && r.unwrap()@ == service.users@[i].username,
                None => r is None,
            },
{
    match AuthRequesterClaims::from_string(first, &service.settings, now) {
        Err(_) => None,
        Ok(c) => {
            match service.users.find_by_uuid(c.sub.as_str()) {
                None => None,
                Some(i) => Some(service.users.get(i).username.clone()),
            }
        },
    }
}

/// The announcement that `name` joined.
pub fn joined_message(name: &str) -> (r: String)
    ensures
        r@ == name@ + " joined."@,
{
    let mut m = String::from_str(name);
    m.append(" joined.");
    m
}

/// The announcement that `name` left.
pub fn left_message(name: &str) -> (r: String)
    ensures
        r@ == name@ + " left."@,
{
    let mut m = String::from_str(name);
    m.append(" left.");
    m
}

/// The line broadcast when `name` says `text`.
pub fn relay_line(name: &str, text: &str) -> (r: String)
    ensures
        r@ == name@ + ": "@ + text@,
{
    let mut m = String::from_str(name);
    m.append(": ");
    m.append(text);
    m
}

/// An empty message ends a connection's relay, in either direction.
pub fn ends_relay(text: &str) -> (r: bool)
    ensures
        r == (text@.len() == 0),
{
    text.unicode_len() == 0
}

} // verus!
