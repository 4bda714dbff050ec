use vstd::prelude::*;

verus! {

/// The kinds of failure that the authentication operations report.
#[derive(Debug, Clone, Copy, PartialEq, Eq, Structural)]
pub enum AuthErrorType {
    WrongCredentials,
    TokenCreation,
    UserAlreadyExists,
    UserDoesNotExist,
    InvalidToken,
    BadRequest,
    ServerError,
    AccessDenied,
    MissingFields,
    InvalidEmail,
    ResetLinkInvalid,
}

/// The HTTP status code that answers each kind of failure.
pub open spec fn status_of(kind: AuthErrorType) -> u16 {
    match kind {
        AuthErrorType::WrongCredentials => 401,
        AuthErrorType::TokenCreation => 500,
        AuthErrorType::ServerError => 500,
        AuthErrorType::UserAlreadyExists => 409,
        AuthErrorType::UserDoesNotExist => 404,
        AuthErrorType::InvalidToken => 403,
        AuthErrorType::AccessDenied => 403,
        AuthErrorType::MissingFields => 400,
        AuthErrorType::BadRequest => 400,
        AuthErrorType::InvalidEmail => 400,
        AuthErrorType::ResetLinkInvalid => 400,
    }
}

/// The human-readable message that goes with each kind of failure.
pub open spec fn message_of(kind: AuthErrorType) -> Seq<char> {
    match kind {
        AuthErrorType::WrongCredentials => "Wrong credentials"@,
        AuthErrorType::TokenCreation => "Token creation error"@,
        AuthErrorType::ServerError => "Server error"@,
        AuthErrorType::UserAlreadyExists => "Username or email taken"@,
        AuthErrorType::UserDoesNotExist => "User does not exist"@,
        AuthErrorType::InvalidToken => "Invalid token"@,
        AuthErrorType::AccessDenied => "Access denied"@,
        AuthErrorType::MissingFields => "Missing required fields"@,
        AuthErrorType::BadRequest => "Bad request"@,
        AuthErrorType::InvalidEmail => "Email address is invalid"@,
        AuthErrorType::ResetLinkInvalid => "Reset link is invalid or expired"@,
    }
}

/// The serialisable body of an error response: its kind and a message.
#[derive(Debug)]
pub struct AuthErrorBody {
    pub error_type: AuthErrorType,
    pub message: String,
}

/// An error as the HTTP layer sends it: a status code and a body.
#[derive(Debug)]
pub struct AuthError {
    pub status: u16,
    pub body: AuthErrorBody,
}

impl AuthError {
    /// The error of kind `kind`, carrying that kind's status and message.
    pub open spec fn of_kind(self, kind: AuthErrorType) -> bool {
        &&& self.status == status_of(kind)
        &&& self.body.error_type == kind
        &&& self.body.message@ == message_of(kind)
    }

    /// The generic error answered when nothing more precise is known.
    pub fn default() -> (r: Self)
        ensures
            r.status == 503,
            r.body.error_type == AuthErrorType::ServerError,
            r.body.message@ == "Generic auth error"@,
    {
        AuthError {
            status: 503,
            body: AuthErrorBody {
                error_type: AuthErrorType::ServerError,
                message: String::from_str("Generic auth error"),
            },
        }
    }

    pub fn from_error_type(error_type: AuthErrorType) -> (r: Self)
        ensures
            r.of_kind(error_type),
    {
        let (status, message): (u16, &str) = match error_type {
            AuthErrorType::WrongCredentials => (401, "Wrong credentials"),
            AuthErrorType::TokenCreation => (500, "Token creation error"),
            AuthErrorType::ServerError => (500, "Server error"),
            AuthErrorType::UserAlreadyExists => (409, "Username or email taken"),
            AuthErrorType::UserDoesNotExist => (404, "User does not exist"),
            AuthErrorType::InvalidToken => (403, "Invalid token"),
            AuthErrorType::AccessDenied => (403, "Access denied"),
            AuthErrorType::MissingFields => (400, "Missing required fields"),
            AuthErrorType::BadRequest => (400, "Bad request"),
            AuthErrorType::InvalidEmail => (400, "Email address is invalid"),
            AuthErrorType::ResetLinkInvalid => (400, "Reset link is invalid or expired"),
        };
        AuthError { status, body: AuthErrorBody { error_type, message: String::from_str(message) } }
    }

    pub fn body(&self) -> (r: AuthErrorBody)
        ensures
            r.error_type == self.body.error_type,
            r.message@ == self.body.message@,
    {
        AuthErrorBody { error_type: self.body.error_type, message: self.body.message.clone() }
    }

    pub fn status(&self) -> (r: u16)
        ensures
            r == self.status,
    {
        self.status
    }

    pub fn error_type(&self) -> (r: AuthErrorType)
        ensures
            r == self.body.error_type,
    {
        self.body.error_type
    }
}

} // verus!
