//! The two kinds of claims, how they are minted, signed as JWTs and verified.
//!
//! `AuthRequesterClaims` is the session token handed out at login and
//! registration; presenting it obtains an `AuthClaims` token, which carries the
//! user's privilege flag.

use vstd::prelude::*;
use crate::codec::{jwt_decode, jwt_encode, jwt_fields_of, jwt_of, JwtFields};
use crate::error::{AuthError, AuthErrorType};
use crate::store::{uuid_index, UserStore};
use crate::text::same_text;
use crate::token::AuthToken;

verus! {

/// Seconds of clock skew tolerated when checking an expiry.
pub const LEEWAY: u64 = 5;

/// Everything that minting and verifying tokens needs: the signing secret,
/// the audience (the company domain), the issuer (the company name), and the
/// lifetimes of the two kinds of token, in seconds.
#[derive(Debug)]
pub struct TokenSettings {
    pub secret: Vec<u8>,
    pub domain: String,
    pub company: String,
    pub access_lifetime: u64,
    pub session_lifetime: u64,
}

/// A token with these fields is accepted at time `now`: audience and issuer
/// are the configured ones and the expiry, with the leeway, is not past.
pub open spec fn accepts(
    settings: TokenSettings,
    aud: Seq<char>,
    com: Seq<char>,
    exp: u64,
    now: u64,
) -> bool {
    &&& aud == settings.domain@
    &&& com == settings.company@
    &&& now <= exp + LEEWAY
}

/// Claims with privilege, minted by exchanging a session token.
#[derive(Debug)]
pub struct AuthClaims {
    pub aud: String,
    pub com: String,
    pub sub: String,
    pub exp: u64,
    pub acc: bool,
}

pub struct AccessView {
    pub aud: Seq<char>,
    pub com: Seq<char>,
    pub sub: Seq<char>,
    pub exp: u64,
    pub acc: bool,
}

impl View for AuthClaims {
    type V = AccessView;

    open spec fn view(&self) -> AccessView {
        AccessView { aud: self.aud@, com: self.com@, sub: self.sub@, exp: self.exp, acc: self.acc }
    }
}

/// Session claims, handed out at login and registration.
#[derive(Debug)]
pub struct AuthRequesterClaims {
    pub aud: String,
    pub com: String,
    pub sub: String,
    pub exp: u64,
}

pub struct SessionView {
    pub aud: Seq<char>,
    pub com: Seq<char>,
    pub sub: Seq<char>,
    pub exp: u64,
}

impl View for AuthRequesterClaims {
    type V = SessionView;

    open spec fn view(&self) -> SessionView {
        SessionView { aud: self.aud@, com: self.com@, sub: self.sub@, exp: self.exp }
    }
}

/// The JWT text of access claims.
pub open spec fn access_jwt(secret: Seq<u8>, m: AccessView) -> Seq<char> {
    jwt_of(secret, m.aud, m.com, m.sub, m.exp, Some(m.acc))
}

/// The JWT text of session claims: their privilege flag is absent.
pub open spec fn session_jwt(secret: Seq<u8>, m: SessionView) -> Seq<char> {
    jwt_of(secret, m.aud, m.com, m.sub, m.exp, None)
}

/// Decoded fields that make access claims.
pub open spec fn access_fields(f: Option<JwtFields>) -> Option<AccessView> {
    match f {
        Some((aud, com, sub, exp, Some(acc))) => Some(
            AccessView { aud: aud, com: com, sub: sub, exp: exp, acc: acc },
        ),
        _ => None,
    }
}

/// Decoded fields that make session claims.
pub open spec fn session_fields(f: Option<JwtFields>) -> Option<SessionView> {
    match f {
        Some((aud, com, sub, exp, None)) => Some(
            SessionView { aud: aud, com: com, sub: sub, exp: exp },
        ),
        _ => None,
    }
}

/// The access claims that `token` proves at time `now`, if any: it decodes
/// under the secret, holds access claims, and they are accepted.
pub open spec fn access_check(settings: TokenSettings, token: Seq<char>, now: u64) -> Option<
    AccessView,
> {
    match access_fields(jwt_fields_of(settings.secret@, token)) {
        Some(m) => if accepts(settings, m.aud, m.com, m.exp, now) {
            Some(m)
        } else {
            None
        },
        None => None,
    }
}

/// The session claims that `token` proves at time `now`, if any.
pub open spec fn session_check(settings: TokenSettings, token: Seq<char>, now: u64) -> Option<
    SessionView,
> {
    match session_fields(jwt_fields_of(settings.secret@, token)) {
        Some(m) => if accepts(settings, m.aud, m.com, m.exp, now) {
            Some(m)
        } else {
            None
        },
        None => None,
    }
}

/// The access claims for `sub` minted at `now`, unless the expiry overflows.
pub open spec fn access_claims_for(
    settings: TokenSettings,
    sub: Seq<char>,
    acc: bool,
    now: u64,
) -> Option<AccessView> {
    if now + settings.access_lifetime <= u64::MAX {
        Some(
            AccessView {
                aud: settings.domain@,
                com: settings.company@,
                sub: sub,
                exp: (now + settings.access_lifetime) as u64,
                acc: acc,
            },
        )
    } else {
        None
    }
}

/// The session claims for `sub` minted at `now`, unless the expiry overflows.
pub open spec fn session_claims_for(settings: TokenSettings, sub: Seq<char>, now: u64) -> Option<
    SessionView,
> {
    if now + settings.session_lifetime <= u64::MAX {
        Some(
            SessionView {
                aud: settings.domain@,
                com: settings.company@,
                sub: sub,
                exp: (now + settings.session_lifetime) as u64,
            },
        )
    } else {
        None
    }
}

fn not_expired(exp: u64, now: u64) -> (r: bool)
    ensures
        r == (now <= exp + LEEWAY),
{
    exp >= now || now - exp <= LEEWAY
}

impl AuthClaims {
    /// Unprivileged access claims with an empty subject.
    pub fn default(settings: &TokenSettings, now: u64) -> (r: Result<AuthClaims, AuthError>)
        ensures
            r matches Ok(c) ==> access_claims_for(*settings, Seq::empty(), false, now) == Some(c@),
            r is Err ==> access_claims_for(*settings, Seq::empty(), false, now) is None,
            r matches Err(e) ==> e.of_kind(AuthErrorType::TokenCreation),
    {
        let r = Self::for_user(String::new(), false, settings, now);
        proof {
            if r is Ok {
                assert(r->Ok_0@.sub =~= Seq::<char>::empty());
            }
        }
        r
    }

    /// The access claims for the user `sub` with privilege `acc`.
    pub fn for_user(sub: String, acc: bool, settings: &TokenSettings, now: u64) -> (r: Result<
        AuthClaims,
        AuthError,
    >)
        ensures
            r matches Ok(c) ==> access_claims_for(*settings, sub@, acc, now) == Some(c@),
            r is Err ==> access_claims_for(*settings, sub@, acc, now) is None,
            r matches Err(e) ==> e.of_kind(AuthErrorType::TokenCreation),
    {
        match now.checked_add(settings.access_lifetime) {
            None => Err(AuthError::from_error_type(AuthErrorType::TokenCreation)),
            Some(exp) => Ok(
                AuthClaims {
                    aud: settings.domain.clone(),
                    com: settings.company.clone(),
                    sub,
                    exp,
                    acc,
                },
            ),
        }
    }

    /// The access claims for the stored user with uuid `uuid`, whose privilege
    /// flag comes from the store.
    pub fn new(users: &UserStore, uuid: &str, settings: &TokenSettings, now: u64) -> (r: Result<
        AuthClaims,
        AuthError,
    >)
        ensures
            uuid_index(users@, uuid@) is None ==> (r matches Err(e) && e.of_kind(
                AuthErrorType::TokenCreation,
            )),
            uuid_index(users@, uuid@) matches Some(i) ==> (match access_claims_for(
                *settings,
                uuid@,
                users@[i].is_admin,
                now,
            ) {
                Some(m) => r matches Ok(c) && c@ == m,
                None => r matches Err(e) && e.of_kind(AuthErrorType::TokenCreation),
            }),
    {
        match users.find_by_uuid(uuid) {
            None => Err(AuthError::from_error_type(AuthErrorType::TokenCreation)),
            Some(i) => {
                let user = users.get(i);
                Self::for_user(user.uuid.clone(), user.is_admin, settings, now)
            },
        }
    }

    /// Signs the claims into a bearer JWT.
    pub fn generate_token(&self, settings: &TokenSettings) -> (r: Result<AuthToken, AuthError>)
        ensures
            r matches Ok(t) && t.access_token@ == access_jwt(settings.secret@, self@)
                && t.token_type@ == "Bearer"@,
    {
        match jwt_encode(
            settings.secret.as_slice(),
            self.aud.as_str(),
            self.com.as_str(),
            self.sub.as_str(),
            self.exp,
            Some(self.acc),
        ) {
            Some(text) => Ok(AuthToken::new(text)),
            None => Err(AuthError::from_error_type(AuthErrorType::TokenCreation)),
        }
    }

    /// Verifies a JWT: its signature, audience, issuer and expiry.  Every
    /// failure is `InvalidToken`.
    pub fn from_string(encoded: &str, settings: &TokenSettings, now: u64) -> (r: Result<
        AuthClaims,
        AuthError,
    >)
        ensures
            match access_check(*settings, encoded@, now) {
                Some(m) => r matches Ok(c) && c@ == m,
                None => r matches Err(e) && e.of_kind(AuthErrorType::InvalidToken),
            },
            forall|m: AccessView|
                #![trigger access_jwt(settings.secret@, m)]
                encoded@ == access_jwt(settings.secret@, m) && accepts(
                    *settings,
                    m.aud,
                    m.com,
                    m.exp,
                    now,
                ) ==> (r matches Ok(c) && c@ == m),
            forall|m: AccessView|
                #![trigger access_jwt(settings.secret@, m)]
                encoded@ == access_jwt(settings.secret@, m) && now > m.exp + LEEWAY ==> r is Err,
    {
        match jwt_decode(settings.secret.as_slice(), encoded) {
            Some((aud, com, sub, exp, Some(acc))) => {
                if same_text(aud.as_str(), settings.domain.as_str()) && same_text(
                    com.as_str(),
                    settings.company.as_str(),
                ) && not_expired(exp, now) {
                    Ok(AuthClaims { aud, com, sub, exp, acc })
                } else {
                    Err(AuthError::from_error_type(AuthErrorType::InvalidToken))
                }
            },
            _ => Err(AuthError::from_error_type(AuthErrorType::InvalidToken)),
        }
    }
}

impl AuthRequesterClaims {
    /// Session claims with an empty subject.
    pub fn default(settings: &TokenSettings, now: u64) -> (r: Result<
        AuthRequesterClaims,
        AuthError,
    >)
        ensures
            r matches Ok(c) ==> session_claims_for(*settings, Seq::empty(), now) == Some(c@),
            r is Err ==> session_claims_for(*settings, Seq::empty(), now) is None,
            r matches Err(e) ==> e.of_kind(AuthErrorType::TokenCreation),
    {
        let r = Self::new(String::new(), settings, now);
        proof {
            if r is Ok {
                assert(r->Ok_0@.sub =~= Seq::<char>::empty());
            }
        }
        r
    }

    /// The session claims for the user `uuid`.
    pub fn new(uuid: String, settings: &TokenSettings, now: u64) -> (r: Result<
        AuthRequesterClaims,
        AuthError,
    >)
        ensures
            r matches Ok(c) ==> session_claims_for(*settings, uuid@, now) == Some(c@),
            r is Err ==> session_claims_for(*settings, uuid@, now) is None,
            r matches Err(e) ==> e.of_kind(AuthErrorType::TokenCreation),
    {
        match now.checked_add(settings.session_lifetime) {
            None => Err(AuthError::from_error_type(AuthErrorType::TokenCreation)),
            Some(exp) => Ok(
                AuthRequesterClaims {
                    aud: settings.domain.clone(),
                    com: settings.company.clone(),
                    sub: uuid,
                    exp,
                },
            ),
        }
    }

    /// Signs the claims into a bearer JWT.
    pub fn generate_token(&self, settings: &TokenSettings) -> (r: Result<AuthToken, AuthError>)
        ensures
            r matches Ok(t) && t.access_token@ == session_jwt(settings.secret@, self@)
                && t.token_type@ == "Bearer"@,
    {
        match jwt_encode(
            settings.secret.as_slice(),
            self.aud.as_str(),
            self.com.as_str(),
            self.sub.as_str(),
            self.exp,
            None,
        ) {
            Some(text) => Ok(AuthToken::new(text)),
            None => Err(AuthError::from_error_type(AuthErrorType::TokenCreation)),
        }
    }

    /// Verifies a JWT: its signature, audience, issuer and expiry.  Every
    /// failure is `InvalidToken`.
    pub fn from_string(encoded: &str, settings: &TokenSettings, now: u64) -> (r: Result<
        AuthRequesterClaims,
        AuthError,
    >)
        ensures
            match session_check(*settings, encoded@, now) {
                Some(m) => r matches Ok(c) && c@ == m,
                None => r matches Err(e) && e.of_kind(AuthErrorType::InvalidToken),
            },
            forall|m: SessionView|
                #![trigger session_jwt(settings.secret@, m)]
                encoded@ == session_jwt(settings.secret@, m) && accepts(
                    *settings,
                    m.aud,
                    m.com,
                    m.exp,
                    now,
                ) ==> (r matches Ok(c) && c@ == m),
            forall|m: SessionView|
                #![trigger session_jwt(settings.secret@, m)]
                encoded@ == session_jwt(settings.secret@, m) && now > m.exp + LEEWAY ==> r is Err,
    {
        match jwt_decode(settings.secret.as_slice(), encoded) {
            Some((aud, com, sub, exp, None)) => {
                if same_text(aud.as_str(), settings.domain.as_str()) && same_text(
                    com.as_str(),
                    settings.company.as_str(),
                ) && not_expired(exp, now) {
                    Ok(AuthRequesterClaims { aud, com, sub, exp })
                } else {
                    Err(AuthError::from_error_type(AuthErrorType::InvalidToken))
                }
            },
            _ => Err(AuthError::from_error_type(AuthErrorType::InvalidToken)),
        }
    }
}

} // verus!
