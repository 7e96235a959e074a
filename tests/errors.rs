use gql_api::error::{ApiError, AuthError, EventError, GqlError, SessionError, TicketError, UserError, ValidationError};

#[test]
fn statuses_by_error_kind() {
    assert_eq!(ApiError::Auth(AuthError::NoPermissionError).status_code(), 401);
    assert_eq!(ApiError::Auth(AuthError::WrongCredentialsError).status_code(), 403);
    assert_eq!(ApiError::Auth(AuthError::NoAuthHeaderError).status_code(), 400);
    assert_eq!(ApiError::Auth(AuthError::JWTTokenExpiredError).status_code(), 401);
    assert_eq!(ApiError::Auth(AuthError::JWTTokenCreationError).status_code(), 500);
    assert_eq!(ApiError::Session(SessionError::UsedSession("1".to_string())).status_code(), 403);
    assert_eq!(ApiError::UnparsableUuid("x".to_string()).status_code(), 400);
    assert_eq!(ApiError::User(UserError::WalletCreationFailed).status_code(), 403);
    assert_eq!(ApiError::Gql(GqlError::UnexpectedInternal).status_code(), 500);
}

#[test]
fn messages_give_the_reason_except_for_internal_failures() {
    assert_eq!(ApiError::Auth(AuthError::NoPermissionError).public_message(), "No Permission");
    assert_eq!(
        ApiError::Auth(AuthError::BadEncodedUserRole("pirate".to_string())).public_message(),
        "Bad Encoded User Role: `pirate`"
    );
    assert_eq!(ApiError::Auth(AuthError::JWTTokenCreationError).public_message(), "Internal Server Error");
    assert_eq!(
        ApiError::Session(SessionError::SessionRecoveryCodeMismatch("WRONG1".to_string())).public_message(),
        "Recovery code for the session is incorrect: `WRONG1`"
    );
    assert_eq!(
        ApiError::Session(SessionError::ExpiredSession("123456".to_string())).public_message(),
        "Expired session for token: `123456`"
    );
    assert_eq!(ApiError::User(UserError::WalletCreationFailed).public_message(), "User wallet creating Failed");
    assert_eq!(ApiError::UnparsableUuid("abc".to_string()).public_message(), "abc");
    assert_eq!(
        ApiError::Ticket(TicketError::WrongUserReserved("u".to_string())).public_message(),
        "Wrong ticket user reserved: `u`"
    );
    assert_eq!(
        ApiError::Event(EventError::NoExistEventUuid("e".to_string())).public_message(),
        "Non-existing event with uuid: `e`"
    );
    assert_eq!(
        GqlError::Validation(ValidationError::new("ticket_name", "too long")).message(),
        "(Field: ticket_name, Message: too long)"
    );
    assert_eq!(GqlError::UnknownEventStatus("7".to_string()).message(), "Unknown event status (7) error");
    assert_eq!(UserError::UnknownUserRole("x".to_string()).message(), "Unknown User Role: `x`");
}
