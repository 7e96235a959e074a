use gql_api::api::{BuyerSignupResponse, BuyerVerifyRecoveryCodeResponse};
use gql_api::config::PostgresConfig;
use gql_api::models::DbUser;
use gql_api::error::{GqlError, UserError, ValidationError};
use gql_api::roles::{EventStatus, Role, ServerEnv, UserStatus};
use gql_api::text::decimal;

#[test]
fn roles_round_trip_through_integers_and_names() {
    for role in [Role::Admin, Role::Seller, Role::Buyer, Role::SuperAdmin] {
        assert_eq!(Role::try_from_i16(role.to_i16()), Ok(role));
        assert_eq!(Role::try_from_str(role.as_str()), Ok(role));
    }
    assert_eq!(Role::SuperAdmin.to_i16(), 4);
    assert_eq!(Role::try_from_i16(3), Err(UserError::UnknownUserRole("3".to_string())));
    assert_eq!(Role::try_from_i16(-32768), Err(UserError::UnknownUserRole("-32768".to_string())));
    assert_eq!(Role::try_from_i16(-5), Err(UserError::UnknownUserRole("-5".to_string())));
    assert_eq!(Role::try_from_str("SuperAdmin"), Ok(Role::SuperAdmin));
    assert_eq!(Role::try_from_str("owner"), Err(UserError::UnknownUserRole("owner".to_string())));
}

#[test]
fn statuses_round_trip() {
    for s in [UserStatus::Unverified, UserStatus::PhoneVerified] {
        assert_eq!(UserStatus::try_from_i16(s.to_i16()), Ok(s));
        assert_eq!(UserStatus::try_from_str(s.as_str()), Ok(s));
    }
    assert_eq!(UserStatus::PhoneVerified.as_str(), "phone_verified");
    assert_eq!(UserStatus::try_from_str("PHONE_VERIFIED"), Ok(UserStatus::PhoneVerified));
    assert_eq!(UserStatus::try_from_i16(7), Err(UserError::UnknownUserStatus("7".to_string())));
    assert_eq!(UserStatus::try_from_i16(-1), Err(UserError::UnknownUserStatus("-1".to_string())));
    assert_eq!(UserStatus::try_from_str("x"), Err(UserError::UnknownUserStatus("x".to_string())));
}

#[test]
fn event_status_and_server_env() {
    assert_eq!(EventStatus::from_str("MINTING"), EventStatus::Minting);
    assert_eq!(EventStatus::from_str("final"), EventStatus::Final);
    assert_eq!(EventStatus::from_str("whatever"), EventStatus::Draft);
    assert_eq!(EventStatus::try_from_i16(2), Ok(EventStatus::Final));
    assert_eq!(EventStatus::try_from_i16(9), Err(GqlError::UnknownEventStatus("9".to_string())));
    assert_eq!(EventStatus::Minting.to_i16(), 1);
    assert_eq!(EventStatus::Final.as_str(), "final");
    assert_eq!(ServerEnv::from_str("Release"), ServerEnv::Release);
    assert_eq!(ServerEnv::from_str("dev"), ServerEnv::Dev);
    assert_eq!(ServerEnv::from_str("prod"), ServerEnv::Dev);
}

#[test]
fn connection_string_layout() {
    let c = PostgresConfig {
        db_host: "localhost".to_string(),
        db_port: 5432,
        db_name: "tickets".to_string(),
        db_user: "app".to_string(),
        db_pwd: "pw".to_string(),
    };
    assert_eq!(c.connection_string(), "postgres://app:pw@localhost:5432/tickets");
}

#[test]
fn decimal_text() {
    assert_eq!(decimal(0), "0");
    assert_eq!(decimal(7), "7");
    assert_eq!(decimal(10), "10");
    assert_eq!(decimal(u64::MAX), "18446744073709551615");
}

#[test]
fn validation_error_new() {
    let v = ValidationError::new("ticket_name", "too long");
    assert_eq!(v.field, "ticket_name");
    assert_eq!(v.message, "too long");
}

fn user() -> DbUser {
    DbUser::new(
        0x67e5504410b1426f9247bb680e5fe0c8,
        None,
        "alice".to_string(),
        Some("+15551234567".to_string()),
        None,
        None,
        Some("sealed".to_string()),
        Role::Buyer,
        "alice.testnet".to_string(),
        "0".to_string(),
        UserStatus::PhoneVerified,
        1_700_000_123_456,
    )
}

#[test]
fn signup_and_recovery_responses_from_user() {
    let r = BuyerSignupResponse::from_user(user());
    assert_eq!(r.id, "67e55044-10b1-426f-9247-bb680e5fe0c8");
    assert_eq!(r.created_at, 1_700_000_123);
    assert_eq!(r.user_type, "buyer");
    assert_eq!(r.user_status, "phone_verified");
    assert_eq!(r.wallet_encrypted_secret_key, Some("sealed".to_string()));
    assert_eq!(r.jwt, None);
    let v = BuyerVerifyRecoveryCodeResponse::from_user(user());
    assert_eq!(v.encrypted_secret_key, "sealed");
    assert_eq!(v.wallet_id, "alice.testnet");
    let mut no_key = user();
    no_key.encrypted_secret_key = None;
    assert_eq!(BuyerVerifyRecoveryCodeResponse::from_user(no_key).encrypted_secret_key, "");
}
