use gql_api::codec::{authorize, check_role, create_jwt, jwt_from_header, validate, SigningKey};
use gql_api::error::{ApiError, AuthError, UserError};
use gql_api::password::hash_password;
use gql_api::signup::check_password_signin;
use gql_api::roles::Role;

const NOW: u64 = 1_700_000_000;
const SUBJECT: &str = "67e55044-10b1-426f-9247-bb680e5fe0c8";

fn key() -> SigningKey {
    SigningKey::new(b"a strong test secret".to_vec())
}

#[test]
fn issued_credential_validates_until_expiry() {
    for role in [Role::Admin, Role::Seller, Role::Buyer, Role::SuperAdmin] {
        let token = create_jwt(SUBJECT, &role, NOW, &key()).unwrap();
        assert_eq!(validate(&token, &key(), NOW).unwrap(), (SUBJECT.to_string(), role));
        assert_eq!(validate(&token, &key(), NOW + 3600).unwrap(), (SUBJECT.to_string(), role));
        assert_eq!(validate(&token, &key(), NOW + 3601).unwrap_err(), AuthError::JWTTokenExpiredError);
    }
}

#[test]
fn token_under_another_key_is_invalid() {
    let token = create_jwt(SUBJECT, &Role::Buyer, NOW, &key()).unwrap();
    let other = SigningKey::new(b"another secret".to_vec());
    assert_eq!(validate(&token, &other, NOW).unwrap_err(), AuthError::JWTTokenError);
    assert_eq!(validate("not.a.token", &key(), NOW).unwrap_err(), AuthError::JWTTokenError);
    let mut tampered = token.clone();
    tampered.push('x');
    assert_eq!(validate(&tampered, &key(), NOW).unwrap_err(), AuthError::JWTTokenError);
}

#[test]
fn role_gate_has_no_hierarchy() {
    assert_eq!(check_role(&vec![Role::Admin], Role::Buyer), Err(AuthError::NoPermissionError));
    assert_eq!(check_role(&vec![Role::Admin, Role::Buyer], Role::Buyer), Ok(()));
    assert_eq!(check_role(&vec![Role::SuperAdmin], Role::Admin), Err(AuthError::NoPermissionError));
    assert_eq!(check_role(&vec![], Role::Admin), Err(AuthError::NoPermissionError));
}

#[test]
fn bearer_header_parsing() {
    assert_eq!(jwt_from_header(None), Err(AuthError::NoAuthHeaderError));
    assert_eq!(jwt_from_header(Some("Basic abc")), Err(AuthError::InvalidAuthHeaderError));
    assert_eq!(jwt_from_header(Some("Bearer")), Err(AuthError::InvalidAuthHeaderError));
    assert_eq!(jwt_from_header(Some("Bearer abc.def")), Ok("abc.def".to_string()));
}

#[test]
fn authorize_returns_the_subject_id() {
    let token = create_jwt(SUBJECT, &Role::Seller, NOW, &key()).unwrap();
    let header = format!("Bearer {}", token);
    let id = authorize(&vec![Role::Seller], Some(&header), &key(), NOW + 5).unwrap();
    assert_eq!(id, 0x67e5504410b1426f9247bb680e5fe0c8u128);
    assert_eq!(
        authorize(&vec![Role::Admin], Some(&header), &key(), NOW + 5),
        Err(ApiError::Auth(AuthError::NoPermissionError))
    );
    assert_eq!(authorize(&vec![Role::Seller], None, &key(), NOW), Err(ApiError::Auth(AuthError::NoAuthHeaderError)));
    let bad_subject = create_jwt("user-1", &Role::Seller, NOW, &key()).unwrap();
    assert_eq!(
        authorize(&vec![Role::Seller], Some(&format!("Bearer {}", bad_subject)), &key(), NOW),
        Err(ApiError::UnparsableUuid("user-1".to_string()))
    );
    assert_eq!(
        authorize(&vec![Role::Seller], Some(&header), &key(), NOW + 4000),
        Err(ApiError::Auth(AuthError::JWTTokenExpiredError))
    );
}

#[test]
fn password_signin_decisions() {
    let allowed = vec![Role::Seller, Role::Admin];
    let h = hash_password(b"hunter22").unwrap();
    assert_eq!(check_password_signin(&allowed, Role::Seller, Some(&h), b"hunter22"), Ok(()));
    assert_eq!(
        check_password_signin(&allowed, Role::Admin, Some(&h), b"nope"),
        Err(ApiError::Auth(AuthError::WrongCredentialsError))
    );
    assert_eq!(
        check_password_signin(&allowed, Role::Buyer, Some(&h), b"hunter22"),
        Err(ApiError::User(UserError::UnallowedUserRole("buyer".to_string())))
    );
    assert_eq!(check_password_signin(&allowed, Role::Seller, None, b"x"), Err(ApiError::User(UserError::NoPassword)));
    assert!(matches!(check_password_signin(&allowed, Role::Seller, Some("garbage"), b"x"), Err(ApiError::Hash(_))));
}
