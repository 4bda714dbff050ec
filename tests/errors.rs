use authcore::error::{AuthError, AuthErrorType};

#[test]
fn status_codes_per_kind() {
    let cases = [
        (AuthErrorType::WrongCredentials, 401, "Wrong credentials"),
        (AuthErrorType::TokenCreation, 500, "Token creation error"),
        (AuthErrorType::ServerError, 500, "Server error"),
        (AuthErrorType::UserAlreadyExists, 409, "Username or email taken"),
        (AuthErrorType::UserDoesNotExist, 404, "User does not exist"),
        (AuthErrorType::InvalidToken, 403, "Invalid token"),
        (AuthErrorType::AccessDenied, 403, "Access denied"),
        (AuthErrorType::MissingFields, 400, "Missing required fields"),
        (AuthErrorType::BadRequest, 400, "Bad request"),
        (AuthErrorType::InvalidEmail, 400, "Email address is invalid"),
        (AuthErrorType::ResetLinkInvalid, 400, "Reset link is invalid or expired"),
    ];
    for (kind, status, message) in cases {
        let e = AuthError::from_error_type(kind);
        assert_eq!(e.status(), status);
        assert_eq!(e.error_type(), kind);
        let body = e.body();
        assert_eq!(body.error_type, kind);
        assert_eq!(body.message, message);
    }
}

#[test]
fn default_error_is_generic_server_error() {
    let e = AuthError::default();
    assert_eq!(e.status(), 503);
    assert_eq!(e.body().error_type, AuthErrorType::ServerError);
    assert_eq!(e.body().message, "Generic auth error");
}
