use session_auth::middlewares::AuthError;
use session_auth::models::ModelError;
use session_auth::Error;

fn parts(response: session_auth::middlewares::ErrorResponse) -> (u16, String) {
    (response.status, response.message)
}

#[test]
fn auth_errors_map_to_their_responses() {
    assert_eq!(parts(AuthError::InvalidToken.response()), (401, "Invalid token".to_string()));
    assert_eq!(
        parts(AuthError::MissingCredentials.response()),
        (400, "Credentials missing from request".to_string())
    );
    assert_eq!(
        parts(AuthError::TokenCreation.response()),
        (500, "Internal server error".to_string())
    );
    assert_eq!(
        parts(AuthError::WrongCredentials.response()),
        (401, "Wrong credentials".to_string())
    );
    assert_eq!(parts(AuthError::Expired.response()), (401, "Token expired".to_string()));
    assert_eq!(parts(AuthError::StoreError.response()), (500, "Internal server error".to_string()));
}

#[test]
fn model_errors_map_to_their_responses() {
    assert_eq!(
        parts(ModelError::EntityAlreadyExists.response()),
        (409, "Entity already exists".to_string())
    );
    assert_eq!(parts(ModelError::EntityNotFound.response()), (404, "Entity not found".to_string()));
    assert_eq!(parts(ModelError::Sqlx.response()), (500, "Internal Server Error".to_string()));
    assert_eq!(parts(ModelError::Uuid.response()), (500, "Internal Server Error".to_string()));
}

#[test]
fn invalid_credentials_are_unauthorized() {
    assert_eq!(
        parts(Error::InvalidCredentials.response()),
        (401, "Invalid email or password".to_string())
    );
}

#[test]
fn wrapped_errors_answer_for_themselves() {
    for err in [
        AuthError::InvalidToken,
        AuthError::MissingCredentials,
        AuthError::TokenCreation,
        AuthError::WrongCredentials,
        AuthError::Expired,
        AuthError::StoreError,
    ] {
        assert_eq!(parts(Error::Auth(err).response()), parts(err.response()));
    }
    for err in [
        ModelError::EntityAlreadyExists,
        ModelError::EntityNotFound,
        ModelError::Sqlx,
        ModelError::Uuid,
    ] {
        assert_eq!(parts(Error::Model(err).response()), parts(err.response()));
    }
}

#[test]
fn every_other_error_is_an_internal_server_error() {
    for err in [
        Error::Axum,
        Error::Config,
        Error::DirectiveParseError,
        Error::EnvFilter,
        Error::FromEnv,
        Error::IOError,
        Error::TryInit,
        Error::Migrate,
        Error::Redis,
        Error::JsonWebToken,
        Error::Argon2,
        Error::PasswordHash,
        Error::TokenError,
        Error::SerdeJson,
    ] {
        assert_eq!(parts(err.response()), (500, "Internal Server Error".to_string()));
    }
}
