//! Properties that relate several operations, proved over their outcome
//! specifications.

use vstd::prelude::*;
use crate::claims::{session_jwt, SessionView, TokenSettings};
use crate::credentials::{bcrypt_accepts, email_valid};
use crate::error::AuthErrorType;
use crate::reset::{ResetView, RESET_WINDOW};
use crate::service::{
    login_outcome, new_user, register_outcome, request_reset_check, request_reset_outcome,
    reset_outcome,
};
use crate::store::{
    distinct_users, email_index, email_lookup, fits, has_email, has_username, ident_index,
    username_index, with_pass,
};
use crate::user::{info_of, UserView};

verus! {

/// The session claims that a login or registration at `now` mints for `sub`.
pub open spec fn session_for(settings: TokenSettings, sub: Seq<char>, now: u64) -> SessionView {
    SessionView {
        aud: settings.domain@,
        com: settings.company@,
        sub: sub,
        exp: (now + settings.session_lifetime) as u64,
    }
}

/// The user at index `i` is the one that an identifier equal to its username
/// finds.
proof fn lemma_ident_of_username(users: Seq<UserView>, i: int)
    requires
        distinct_users(users),
        0 <= i < users.len(),
    ensures
        ident_index(users, users[i].username) == Some(i),
{
    assert(users[i].username == users[i].username);
    assert(has_username(users, users[i].username));
    let j = username_index(users, users[i].username);
    assert(users[j].username == users[i].username);
}

/// Registering new credentials succeeds with a session token whose subject is
/// the new uuid, and a later login with the same username and password
/// succeeds for that user.
pub proof fn lemma_register_then_login(
    settings: TokenSettings,
    users: Seq<UserView>,
    username: Seq<char>,
    pass: Seq<char>,
    email: Seq<char>,
    uuid: Seq<char>,
    hash: Seq<char>,
    now: u64,
    later: u64,
)
    requires
        distinct_users(users),
        username.len() > 0,
        pass.len() > 0,
        email.len() > 0,
        email_valid(email),
        fits(users, new_user(uuid, username, hash, email)),
        bcrypt_accepts(pass, hash),
        now + settings.session_lifetime <= u64::MAX,
        later + settings.session_lifetime <= u64::MAX,
    ensures
        ({
            let u = new_user(uuid, username, hash, email);
            let (after, out) = register_outcome(
                settings,
                users,
                username,
                pass,
                email,
                uuid,
                Some(hash),
                now,
            );
            &&& after == users.push(u)
            &&& out == Ok::<_, AuthErrorType>(
                (info_of(u), session_jwt(settings.secret@, session_for(settings, uuid, now))),
            )
            &&& login_outcome(settings, after, username, pass, later) == Ok::<_, AuthErrorType>(
                (
                    info_of(u),
                    session_jwt(settings.secret@, session_for(settings, uuid, later)),
                ),
            )
        }),
{
    let u = new_user(uuid, username, hash, email);
    let after = users.push(u);
    let n = users.len() as int;
    assert(after[n] == u);
    assert(has_username(after, username));
    let j = username_index(after, username);
    assert(after[j].username == username);
    if j < n {
        assert(users[j] == after[j]);
        assert(has_username(users, username));
    }
    assert(j == n);
}

/// Logging in as a registered user with a password that its hash does not
/// accept is always `WrongCredentials`, never `UserDoesNotExist`.
pub proof fn lemma_wrong_password_rejected(
    settings: TokenSettings,
    users: Seq<UserView>,
    i: int,
    pass: Seq<char>,
    now: u64,
)
    requires
        distinct_users(users),
        0 <= i < users.len(),
        !bcrypt_accepts(pass, users[i].pass),
    ensures
        login_outcome(settings, users, users[i].username, pass, now) == Err::<
            (crate::user::UserInfoView, Seq<char>),
            _,
        >(AuthErrorType::WrongCredentials),
{
    lemma_ident_of_username(users, i);
}

/// Logging in by the email of a registered user, where no user has that
/// text as username, with a password that the user's hash does not accept is
/// `WrongCredentials`, never `UserDoesNotExist`.
pub proof fn lemma_wrong_password_by_email_rejected(
    settings: TokenSettings,
    users: Seq<UserView>,
    i: int,
    pass: Seq<char>,
    now: u64,
)
    requires
        distinct_users(users),
        0 <= i < users.len(),
        !has_username(users, users[i].email),
        !bcrypt_accepts(pass, users[i].pass),
    ensures
        login_outcome(settings, users, users[i].email, pass, now) == Err::<
            (crate::user::UserInfoView, Seq<char>),
            _,
        >(AuthErrorType::WrongCredentials),
{
    assert(users[i].email == users[i].email);
    assert(has_email(users, users[i].email));
    let j = email_index(users, users[i].email);
    assert(users[j].email == users[i].email);
}

/// A reset key issued at `issued` for `email` resets that address's password
/// up to one day later and is refused after that; for any other address it is
/// refused at any time.
pub proof fn lemma_reset_key_window(
    users: Seq<UserView>,
    resets: Map<Seq<char>, ResetView>,
    email: Seq<char>,
    key: Seq<char>,
    issued: u64,
    now: u64,
    hash: Seq<char>,
    other: Seq<char>,
)
    requires
        request_reset_check(users, email) is None,
    ensures
        ({
            let pending = request_reset_outcome(users, resets, email, key, issued).0;
            &&& now <= issued + RESET_WINDOW ==> reset_outcome(
                users,
                pending,
                key,
                email,
                now,
                Some(hash),
            ).2 is Ok
            &&& now > issued + RESET_WINDOW ==> reset_outcome(
                users,
                pending,
                key,
                email,
                now,
                Some(hash),
            ).2 == Err::<(), _>(AuthErrorType::ResetLinkInvalid)
            &&& other != email ==> reset_outcome(users, pending, key, other, now, Some(hash)).2 is Err
            &&& other != email && email_lookup(users, other) is Some ==> reset_outcome(
                users,
                pending,
                key,
                other,
                now,
                Some(hash),
            ).2 == Err::<(), _>(AuthErrorType::ResetLinkInvalid)
        }),
{
}

/// A reset key works once: after a successful reset, the same key and address
/// are refused with `ResetLinkInvalid`.
pub proof fn lemma_reset_key_single_use(
    users: Seq<UserView>,
    resets: Map<Seq<char>, ResetView>,
    key: Seq<char>,
    email: Seq<char>,
    now: u64,
    hash: Option<Seq<char>>,
    later: u64,
    hash2: Option<Seq<char>>,
)
    requires
        reset_outcome(users, resets, key, email, now, hash).2 is Ok,
    ensures
        ({
            let (users2, resets2, _) = reset_outcome(users, resets, key, email, now, hash);
            reset_outcome(users2, resets2, key, email, later, hash2).2 == Err::<(), _>(
                AuthErrorType::ResetLinkInvalid,
            )
        }),
{
    let i = email_lookup(users, email)->0;
    let h = hash->0;
    let users2 = with_pass(users, i, h);
    let j = email_index(users, email);
    assert(users2[j].email == users[j].email);
    assert(has_email(users2, email));
}

} // verus!
