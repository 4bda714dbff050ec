//! The authentication operations: registration, login, the exchange of a
//! session token for an access token, the request guards, the user
//! administration operations, and the password-reset flow.

use vstd::prelude::*;
use crate::claims::{
    access_check, access_claims_for, access_jwt, accepts, session_check, session_claims_for,
    session_jwt, AccessView, AuthClaims, AuthRequesterClaims, SessionView, TokenSettings, LEEWAY,
};
use crate::credentials::{
    bcrypt_accepts, email_valid, hash_password, is_alphanumeric, is_valid_email, new_uuid,
    password_matches, random_alphanumeric, HashCost,
};
use crate::error::{AuthError, AuthErrorType};
use crate::reset::{key_valid, ResetKeyStore, ResetView};
use crate::store::{email_lookup, fits, has_uuid, ident_index, uuid_index, with_pass, UserStore};
use crate::token::{bearer_of, bearer_token, AuthToken};
use crate::user::{
    info_of, LoginUser, RegisterUser, ResetUser, User, UserInfo, UserInfoView, UserView,
};

verus! {

/// Characters in a password-reset key.
pub const RESET_KEY_LENGTH: usize = 64;

/// The state behind the authentication endpoints.
pub struct AuthService {
    pub settings: TokenSettings,
    pub hash_cost: HashCost,
    pub users: UserStore,
    pub resets: ResetKeyStore,
}

/// The user that registration creates.
pub open spec fn new_user(
    uuid: Seq<char>,
    username: Seq<char>,
    hash: Seq<char>,
    email: Seq<char>,
) -> UserView {
    UserView { uuid: uuid, username: username, pass: hash, email: email, is_admin: false }
}

pub open spec fn opt_view(o: Option<String>) -> Option<Seq<char>> {
    match o {
        Some(s) => Some(s@),
        None => None,
    }
}

/// What a register or login call answered: the public user and the token
/// text, or the kind of error.
pub open spec fn session_result(r: &Result<(UserInfo, AuthToken), AuthError>) -> Result<
    (UserInfoView, Seq<char>),
    AuthErrorType,
> {
    match r {
        Ok((i, t)) => Ok((i@, t.access_token@)),
        Err(e) => Err(e.body.error_type),
    }
}

/// Tokens are bearer tokens and errors carry their kind's status and message.
pub open spec fn session_result_shape(r: &Result<(UserInfo, AuthToken), AuthError>) -> bool {
    match r {
        Ok((_, t)) => t.token_type@ == "Bearer"@,
        Err(e) => e.of_kind(e.body.error_type),
    }
}

pub open spec fn unit_result(r: &Result<(), AuthError>) -> Result<(), AuthErrorType> {
    match r {
        Ok(_) => Ok(()),
        Err(e) => Err(e.body.error_type),
    }
}

pub open spec fn unit_result_shape(r: &Result<(), AuthError>) -> bool {
    r matches Err(e) ==> e.of_kind(e.body.error_type)
}

/// Registration: the store afterwards, and the answer.
pub open spec fn register_outcome(
    settings: TokenSettings,
    users: Seq<UserView>,
    username: Seq<char>,
    pass: Seq<char>,
    email: Seq<char>,
    uuid: Seq<char>,
    hash: Option<Seq<char>>,
    now: u64,
) -> (Seq<UserView>, Result<(UserInfoView, Seq<char>), AuthErrorType>) {
    if username.len() == 0 || pass.len() == 0 || email.len() == 0 {
        (users, Err(AuthErrorType::MissingFields))
    } else if !email_valid(email) {
        (users, Err(AuthErrorType::InvalidEmail))
    } else {
        match hash {
            None => (users, Err(AuthErrorType::ServerError)),
            Some(h) => match session_claims_for(settings, uuid, now) {
                None => (users, Err(AuthErrorType::TokenCreation)),
                Some(m) => {
                    let u = new_user(uuid, username, h, email);
                    if fits(users, u) {
                        (users.push(u), Ok((info_of(u), session_jwt(settings.secret@, m))))
                    } else {
                        (users, Err(AuthErrorType::UserAlreadyExists))
                    }
                },
            },
        }
    }
}

/// Login by username or email.
pub open spec fn login_outcome(
    settings: TokenSettings,
    users: Seq<UserView>,
    ident: Seq<char>,
    pass: Seq<char>,
    now: u64,
) -> Result<(UserInfoView, Seq<char>), AuthErrorType> {
    if ident.len() == 0 || pass.len() == 0 {
        Err(AuthErrorType::WrongCredentials)
    } else {
        match ident_index(users, ident) {
            None => Err(AuthErrorType::UserDoesNotExist),
            Some(i) => if !bcrypt_accepts(pass, users[i].pass) {
                Err(AuthErrorType::WrongCredentials)
            } else {
                match session_claims_for(settings, users[i].uuid, now) {
                    None => Err(AuthErrorType::TokenCreation),
                    Some(m) => Ok((info_of(users[i]), session_jwt(settings.secret@, m))),
                }
            },
        }
    }
}

/// The answer to exchanging a verified session token of subject `sub`: an
/// access token for that user carrying the user's current privilege flag.
pub open spec fn exchange_answer(
    settings: TokenSettings,
    users: Seq<UserView>,
    sub: Seq<char>,
    now: u64,
    r: &Result<AuthToken, AuthError>,
) -> bool {
    match uuid_index(users, sub) {
        None => r matches Err(e) && e.of_kind(AuthErrorType::AccessDenied),
        Some(i) => match access_claims_for(settings, sub, users[i].is_admin, now) {
            None => r matches Err(e) && e.of_kind(AuthErrorType::AccessDenied),
            Some(a) => r matches Ok(t) && t.access_token@ == access_jwt(settings.secret@, a)
                && t.token_type@ == "Bearer"@,
        },
    }
}

/// Why a reset may not be requested for `email`, if it may not.
pub open spec fn request_reset_check(users: Seq<UserView>, email: Seq<char>) -> Option<
    AuthErrorType,
> {
    if !email_valid(email) {
        Some(AuthErrorType::InvalidEmail)
    } else if email_lookup(users, email) is None {
        Some(AuthErrorType::UserDoesNotExist)
    } else {
        None
    }
}

/// Requesting a reset: the pending resets afterwards, and the answer.
pub open spec fn request_reset_outcome(
    users: Seq<UserView>,
    resets: Map<Seq<char>, ResetView>,
    email: Seq<char>,
    key: Seq<char>,
    now: u64,
) -> (Map<Seq<char>, ResetView>, Result<(), AuthErrorType>) {
    match request_reset_check(users, email) {
        Some(k) => (resets, Err(k)),
        None => (resets.insert(key, ResetView { key: key, email: email, issued_at: now }), Ok(())),
    }
}

/// Whether `key` may reset the password of the user with email `email` at
/// time `now`: that user's index, or why not.
pub open spec fn reset_check(
    users: Seq<UserView>,
    resets: Map<Seq<char>, ResetView>,
    key: Seq<char>,
    email: Seq<char>,
    now: u64,
) -> Result<int, AuthErrorType> {
    match email_lookup(users, email) {
        None => Err(AuthErrorType::UserDoesNotExist),
        Some(i) => if key_valid(resets, key, email, now) {
            Ok(i)
        } else {
            Err(AuthErrorType::ResetLinkInvalid)
        },
    }
}

/// Resetting a password with `key`: the users and pending resets afterwards,
/// and the answer.
pub open spec fn reset_outcome(
    users: Seq<UserView>,
    resets: Map<Seq<char>, ResetView>,
    key: Seq<char>,
    email: Seq<char>,
    now: u64,
    hash: Option<Seq<char>>,
) -> (Seq<UserView>, Map<Seq<char>, ResetView>, Result<(), AuthErrorType>) {
    match reset_check(users, resets, key, email, now) {
        Err(k) => (users, resets, Err(k)),
        Ok(i) => match hash {
            None => (users, resets, Err(AuthErrorType::ServerError)),
            Some(h) => (with_pass(users, i, h), resets.remove(key), Ok(())),
        },
    }
}

/// The session claims that an `Authorization` header value proves.
pub open spec fn session_guard(settings: TokenSettings, header: Seq<char>, now: u64) -> Option<
    SessionView,
> {
    match bearer_of(header) {
        Some(t) => session_check(settings, t, now),
        None => None,
    }
}

/// The access claims that an `Authorization` header value proves.
pub open spec fn access_guard(settings: TokenSettings, header: Seq<char>, now: u64) -> Option<
    AccessView,
> {
    match bearer_of(header) {
        Some(t) => access_check(settings, t, now),
        None => None,
    }
}

/// The link that a reset email carries.
pub open spec fn reset_link(domain: Seq<char>, key: Seq<char>, email: Seq<char>) -> Seq<char> {
    domain + "/reset?key="@ + key + "&email="@ + email
}

fn is_blank(s: &String) -> (r: bool)
    ensures
        r == (s@.len() == 0),
{
    s.as_str().unicode_len() == 0
}

fn err<T>(kind: AuthErrorType) -> (r: Result<T, AuthError>)
    ensures
        r matches Err(e) && e.of_kind(kind),
{
    Err(AuthError::from_error_type(kind))
}

impl AuthService {
    /// A service with no users and no pending resets.
    pub fn new(settings: TokenSettings, hash_cost: HashCost) -> (r: Self)
        ensures
            r.settings == settings,
            r.hash_cost == hash_cost,
            r.users@ == Seq::<UserView>::empty(),
            r.resets@ == Map::<Seq<char>, ResetView>::empty(),
    {
        AuthService { settings, hash_cost, users: UserStore::new(), resets: ResetKeyStore::new() }
    }

    /// Registers a user whose uuid and password hash are given.
    pub fn register_with(
        &mut self,
        req: &RegisterUser,
        uuid: String,
        hash: Option<String>,
        now: u64,
    ) -> (r: Result<(UserInfo, AuthToken), AuthError>)
        ensures
            final(self).settings == old(self).settings,
            final(self).hash_cost == old(self).hash_cost,
            final(self).resets@ == old(self).resets@,
            (final(self).users@, session_result(&r)) == register_outcome(
                old(self).settings,
                old(self).users@,
                req.username@,
                req.pass@,
                req.email@,
                uuid@,
                opt_view(hash),
                now,
            ),
            session_result_shape(&r),
    {
        if is_blank(&req.username) || is_blank(&req.pass) || is_blank(&req.email) {
            return err(AuthErrorType::MissingFields);
        }
        if !is_valid_email(req.email.as_str()) {
            return err(AuthErrorType::InvalidEmail);
        }
        let hash = match hash {
            None => {
                return err(AuthErrorType::ServerError);
            },
            Some(h) => h,
        };
        let claims = match AuthRequesterClaims::new(uuid.clone(), &self.settings, now) {
            Ok(c) => c,
            Err(e) => {
                return Err(e);
            },
        };
        let token = match claims.generate_token(&self.settings) {
            Ok(t) => t,
            Err(e) => {
                return Err(e);
            },
        };
        let user = User {
            uuid,
            username: req.username.clone(),
            pass: hash,
            email: req.email.clone(),
            is_admin: false,
        };
        let info = UserInfo::from_user(&user);
        if !self.users.insert(user) {
            return err(AuthErrorType::UserAlreadyExists);
        }
        Ok((info, token))
    }

    /// Registers a user under a fresh uuid, with a freshly salted hash of the
    /// password.
    pub fn register(&mut self, req: &RegisterUser, now: u64) -> (r: Result<
        (UserInfo, AuthToken),
        AuthError,
    >)
        ensures
            final(self).settings == old(self).settings,
            final(self).hash_cost == old(self).hash_cost,
            final(self).resets@ == old(self).resets@,
            exists|uuid: Seq<char>, hash: Option<Seq<char>>|
                #![trigger register_outcome(old(self).settings, old(self).users@, req.username@, req.pass@, req.email@, uuid, hash, now)]
                (hash matches Some(h) ==> bcrypt_accepts(req.pass@, h)) && (
                final(self).users@,
                session_result(&r),
            ) == register_outcome(
                old(self).settings,
                old(self).users@,
                req.username@,
                req.pass@,
                req.email@,
                uuid,
                hash,
                now,
            ),
            session_result_shape(&r),
    {
        if is_blank(&req.username) || is_blank(&req.pass) || is_blank(&req.email) {
            let r = err(AuthErrorType::MissingFields);
            assert((self.users@, session_result(&r)) == register_outcome(
                self.settings, self.users@, req.username@, req.pass@, req.email@, Seq::empty(), None, now));
            return r;
        }
        if !is_valid_email(req.email.as_str()) {
            let r = err(AuthErrorType::InvalidEmail);
            assert((self.users@, session_result(&r)) == register_outcome(
                self.settings, self.users@, req.username@, req.pass@, req.email@, Seq::empty(), None, now));
            return r;
        }
        let hash = hash_password(req.pass.as_str(), self.hash_cost.get());
        let uuid = new_uuid();
        let ghost u = uuid@;
        let ghost h = opt_view(hash);
        let r = self.register_with(req, uuid, hash, now);
        assert(h matches Some(x) ==> bcrypt_accepts(req.pass@, x));
        r
    }

    /// Logs in by username or email.
    pub fn login(&self, req: &LoginUser, now: u64) -> (r: Result<(UserInfo, AuthToken), AuthError>)
        ensures
            session_result(&r) == login_outcome(
                self.settings,
                self.users@,
                req.username@,
                req.pass@,
                now,
            ),
            session_result_shape(&r),
    {
        if is_blank(&req.username) || is_blank(&req.pass) {
            return err(AuthErrorType::WrongCredentials);
        }
        let i = match self.users.find_by_ident(req.username.as_str()) {
            None => {
                return err(AuthErrorType::UserDoesNotExist);
            },
            Some(i) => i,
        };
        let user = self.users.get(i);
        if !password_matches(req.pass.as_str(), user.pass.as_str()) {
            return err(AuthErrorType::WrongCredentials);
        }
        let claims = match AuthRequesterClaims::new(user.uuid.clone(), &self.settings, now) {
            Ok(c) => c,
            Err(e) => {
                return Err(e);
            },
        };
        let token = match claims.generate_token(&self.settings) {
            Ok(t) => t,
            Err(e) => {
                return Err(e);
            },
        };
        Ok((UserInfo::from_user(user), token))
    }

    /// Verifies the session token of an `Authorization` header value.
    pub fn authenticate_session(&self, header: &str, now: u64) -> (r: Result<
        AuthRequesterClaims,
        AuthError,
    >)
        ensures
            match session_guard(self.settings, header@, now) {
                Some(m) => r matches Ok(c) && c@ == m,
                None => r matches Err(e) && e.of_kind(AuthErrorType::InvalidToken),
            },
            forall|m: SessionView|
                #![trigger session_jwt(self.settings.secret@, m)]
                header@ == "Bearer "@ + session_jwt(self.settings.secret@, m) && accepts(
                    self.settings,
                    m.aud,
                    m.com,
                    m.exp,
                    now,
                ) ==> (r matches Ok(c) && c@ == m),
            forall|m: SessionView|
                #![trigger session_jwt(self.settings.secret@, m)]
                header@ == "Bearer "@ + session_jwt(self.settings.secret@, m) && now > m.exp
                    + LEEWAY ==> r is Err,
    {
        match bearer_token(header) {
            None => err(AuthErrorType::InvalidToken),
            Some(t) => AuthRequesterClaims::from_string(t.as_str(), &self.settings, now),
        }
    }

    /// Verifies the access token of an `Authorization` header value.
    pub fn authenticate_access(&self, header: &str, now: u64) -> (r: Result<AuthClaims, AuthError>)
        ensures
            match access_guard(self.settings, header@, now) {
                Some(m) => r matches Ok(c) && c@ == m,
                None => r matches Err(e) && e.of_kind(AuthErrorType::InvalidToken),
            },
            forall|m: AccessView|
                #![trigger access_jwt(self.settings.secret@, m)]
                header@ == "Bearer "@ + access_jwt(self.settings.secret@, m) && accepts(
                    self.settings,
                    m.aud,
                    m.com,
                    m.exp,
                    now,
                ) ==> (r matches Ok(c) && c@ == m),
            forall|m: AccessView|
                #![trigger access_jwt(self.settings.secret@, m)]
                header@ == "Bearer "@ + access_jwt(self.settings.secret@, m) && now > m.exp
                    + LEEWAY ==> r is Err,
    {
        match bearer_token(header) {
            None => err(AuthErrorType::InvalidToken),
            Some(t) => AuthClaims::from_string(t.as_str(), &self.settings, now),
        }
    }

    /// Mints an access token for the subject of verified session claims.
    pub fn exchange(&self, claims: &AuthRequesterClaims, now: u64) -> (r: Result<
        AuthToken,
        AuthError,
    >)
        ensures
            exchange_answer(self.settings, self.users@, claims.sub@, now, &r),
    {
        match AuthClaims::new(&self.users, claims.sub.as_str(), &self.settings, now) {
            Err(_) => err(AuthErrorType::AccessDenied),
            Ok(c) => c.generate_token(&self.settings),
        }
    }

    /// Exchanges the session token of an `Authorization` header value for an
    /// access token.
    pub fn request_access_token(&self, header: &str, now: u64) -> (r: Result<
        AuthToken,
        AuthError,
    >)
        ensures
            match session_guard(self.settings, header@, now) {
                Some(m) => exchange_answer(self.settings, self.users@, m.sub, now, &r),
                None => r matches Err(e) && e.of_kind(AuthErrorType::InvalidToken),
            },
            forall|m: SessionView|
                #![trigger session_jwt(self.settings.secret@, m)]
                header@ == "Bearer "@ + session_jwt(self.settings.secret@, m) && accepts(
                    self.settings,
                    m.aud,
                    m.com,
                    m.exp,
                    now,
                ) ==> exchange_answer(self.settings, self.users@, m.sub, now, &r),
            forall|m: SessionView|
                #![trigger session_jwt(self.settings.secret@, m)]
                header@ == "Bearer "@ + session_jwt(self.settings.secret@, m) && now > m.exp
                    + LEEWAY ==> (r matches Err(e) && e.of_kind(AuthErrorType::InvalidToken)),
    {
        match self.authenticate_session(header, now) {
            Err(e) => Err(e),
            Ok(c) => self.exchange(&c, now),
        }
    }

    /// The public information of the user that session claims name.
    pub fn user_info(&self, claims: &AuthRequesterClaims) -> (r: Result<UserInfo, AuthError>)
        ensures
            match uuid_index(self.users@, claims.sub@) {
                None => r matches Err(e) && e.of_kind(AuthErrorType::UserDoesNotExist),
                Some(i) => r matches Ok(u) && u@ == info_of(self.users@[i]),
            },
    {
        match self.users.find_by_uuid(claims.sub.as_str()) {
            None => err(AuthErrorType::UserDoesNotExist),
            Some(i) => Ok(UserInfo::from_user(self.users.get(i))),
        }
    }

    /// The public information of every user; only for privileged claims.
    pub fn all_user_info(&self, claims: &AuthClaims) -> (r: Result<Vec<UserInfo>, AuthError>)
        ensures
            claims.acc ==> (r matches Ok(v) && v@.map_values(|x: UserInfo| x@)
                == self.users@.map_values(|u: UserView| info_of(u))),
            !claims.acc ==> (r matches Err(e) && e.of_kind(AuthErrorType::AccessDenied)),
    {
        if claims.acc {
            Ok(self.users.infos())
        } else {
            err(AuthErrorType::AccessDenied)
        }
    }

    /// Deletes the user with uuid `uuid`; only for privileged claims.
    pub fn delete_user(&mut self, claims: &AuthClaims, uuid: &str) -> (r: Result<(), AuthError>)
        ensures
            final(self).settings == old(self).settings,
            final(self).hash_cost == old(self).hash_cost,
            final(self).resets@ == old(self).resets@,
            !claims.acc ==> (r matches Err(e) && e.of_kind(AuthErrorType::AccessDenied))
                && final(self).users@ == old(self).users@,
            claims.acc && !has_uuid(old(self).users@, uuid@) ==> (r matches Err(e) && e.of_kind(
                AuthErrorType::UserDoesNotExist,
            )) && final(self).users@ == old(self).users@,
            claims.acc && has_uuid(old(self).users@, uuid@) ==> r is Ok && final(self).users@ == old(
                self,
            ).users@.remove(uuid_index(old(self).users@, uuid@)->0),
    {
        if !claims.acc {
            return err(AuthErrorType::AccessDenied);
        }
        if self.users.remove_by_uuid(uuid) {
            Ok(())
        } else {
            err(AuthErrorType::UserDoesNotExist)
        }
    }

    /// Records the reset key `key` for `email`.
    pub fn request_reset_with(&mut self, email: &str, key: String, now: u64) -> (r: Result<
        (),
        AuthError,
    >)
        ensures
            final(self).settings == old(self).settings,
            final(self).hash_cost == old(self).hash_cost,
            final(self).users@ == old(self).users@,
            (final(self).resets@, unit_result(&r)) == request_reset_outcome(
                old(self).users@,
                old(self).resets@,
                email@,
                key@,
                now,
            ),
            unit_result_shape(&r),
    {
        if !is_valid_email(email) {
            return err(AuthErrorType::InvalidEmail);
        }
        if self.users.find_by_email(email).is_none() {
            return err(AuthErrorType::UserDoesNotExist);
        }
        self.resets.insert(key, String::from_str(email), now);
        Ok(())
    }

    /// Issues a fresh random reset key for `email` and answers it.
    pub fn request_reset(&mut self, email: &str, now: u64) -> (r: Result<String, AuthError>)
        ensures
            final(self).settings == old(self).settings,
            final(self).hash_cost == old(self).hash_cost,
            final(self).users@ == old(self).users@,
            match request_reset_check(old(self).users@, email@) {
                Some(k) => (r matches Err(e) && e.of_kind(k)) && final(self).resets@ == old(
                    self,
                ).resets@,
                None => r matches Ok(key) && key@.len() == RESET_KEY_LENGTH && (forall|i: int|
                    0 <= i < key@.len() ==> is_alphanumeric(#[trigger] key@[i]))
                    && final(self).resets@ == old(self).resets@.insert(
                    key@,
                    ResetView { key: key@, email: email@, issued_at: now },
                ),
            },
    {
        if !is_valid_email(email) {
            return err(AuthErrorType::InvalidEmail);
        }
        if self.users.find_by_email(email).is_none() {
            return err(AuthErrorType::UserDoesNotExist);
        }
        let key = random_alphanumeric(RESET_KEY_LENGTH);
        let answer = key.clone();
        match self.request_reset_with(email, key, now) {
            Ok(()) => Ok(answer),
            Err(e) => Err(e),
        }
    }

    /// The link to send for the reset key `key` of `email`.
    pub fn reset_url(&self, key: &str, email: &str) -> (r: String)
        ensures
            r@ == reset_link(self.settings.domain@, key@, email@),
    {
        let mut url = self.settings.domain.clone();
        url.append("/reset?key=");
        url.append(key);
        url.append("&email=");
        url.append(email);
        url
    }

    /// Whether `key` may reset the password of the user with email `email`
    /// at time `now`, and that user's index; nothing changes.
    pub fn reset_allowed(&self, key: &str, email: &str, now: u64) -> (r: Result<usize, AuthError>)
        ensures
            match reset_check(self.users@, self.resets@, key@, email@, now) {
                Ok(i) => r matches Ok(j) && j == i,
                Err(k) => r matches Err(e) && e.of_kind(k),
            },
    {
        let i = match self.users.find_by_email(email) {
            None => {
                return err(AuthErrorType::UserDoesNotExist);
            },
            Some(i) => i,
        };
        if !self.resets.is_valid(key, email, now) {
            return err(AuthErrorType::ResetLinkInvalid);
        }
        Ok(i)
    }

    /// A freshly salted bcrypt hash of `pass` at the service's cost.
    pub fn hash_new_password(&self, pass: &str) -> (r: Option<String>)
        ensures
            r is Some ==> bcrypt_accepts(pass@, r.unwrap()@),
    {
        hash_password(pass, self.hash_cost.get())
    }

    /// Resets the password of `req.email_address` with `key`, storing `hash`.
    pub fn reset_password_with(
        &mut self,
        key: &str,
        req: &ResetUser,
        hash: Option<String>,
        now: u64,
    ) -> (r: Result<(), AuthError>)
        ensures
            final(self).settings == old(self).settings,
            final(self).hash_cost == old(self).hash_cost,
            (final(self).users@, final(self).resets@, unit_result(&r)) == reset_outcome(
                old(self).users@,
                old(self).resets@,
                key@,
                req.email_address@,
                now,
                opt_view(hash),
            ),
            unit_result_shape(&r),
    {
        let i = match self.reset_allowed(key, req.email_address.as_str(), now) {
            Err(e) => {
                return Err(e);
            },
            Ok(i) => i,
        };
        match hash {
            None => err(AuthErrorType::ServerError),
            Some(h) => {
                self.users.set_pass(i, h);
                self.resets.remove(key);
                Ok(())
            },
        }
    }

    /// Resets the password of `req.email_address` with `key`, storing a
    /// freshly salted hash of `req.pass`.
    pub fn reset_password(&mut self, key: &str, req: &ResetUser, now: u64) -> (r: Result<
        (),
        AuthError,
    >)
        ensures
            final(self).settings == old(self).settings,
            final(self).hash_cost == old(self).hash_cost,
            exists|hash: Option<Seq<char>>|
                #![trigger reset_outcome(old(self).users@, old(self).resets@, key@, req.email_address@, now, hash)]
                (hash matches Some(h) ==> bcrypt_accepts(req.pass@, h)) && (
                final(self).users@,
                final(self).resets@,
                unit_result(&r),
            ) == reset_outcome(
                old(self).users@,
                old(self).resets@,
                key@,
                req.email_address@,
                now,
                hash,
            ),
            unit_result_shape(&r),
    {
        if self.reset_allowed(key, req.email_address.as_str(), now).is_err() {
            return self.reset_password_with(key, req, None, now);
        }
        let hash = self.hash_new_password(req.pass.as_str());
        let ghost h = opt_view(hash);
        let r = self.reset_password_with(key, req, hash, now);
        assert(h matches Some(x) ==> bcrypt_accepts(req.pass@, x));
        r
    }
}

} // verus!
