use gql_api::error::UserError;
use gql_api::roles::Role;
use gql_api::signup::{
    abort_error, advance, check_existing_seller, check_login_wallet, check_new_seller_identity, endpoint_role,
    key_listed, ledger_account_id, signing_challenge, username_available, SIGNIN_CHALLENGE_TEXT, SignupAbort, SignupEvent, SignupPhase,
};

fn run(events: &[SignupEvent], users: &mut Vec<String>) -> SignupPhase {
    let mut phase = SignupPhase::CheckAvailability;
    for e in events {
        phase = advance(phase, *e);
        if phase == SignupPhase::IssueCredential {
            users.push("alice".to_string());
        }
    }
    phase
}

#[test]
fn ledger_failure_leaves_no_local_user() {
    let mut users = Vec::new();
    let events = [
        SignupEvent::Availability { free_locally: true, free_on_ledger: true, phone_verified: true },
        SignupEvent::KeysGenerated,
        SignupEvent::AccountCreated { failed: true },
        SignupEvent::SecretSealed,
        SignupEvent::UserPersisted,
        SignupEvent::CredentialIssued,
    ];
    let end = run(&events, &mut users);
    assert_eq!(end, SignupPhase::Aborted(SignupAbort::WalletCreationFailed));
    assert!(users.is_empty());
    assert_eq!(abort_error(SignupAbort::WalletCreationFailed), Some(UserError::WalletCreationFailed));
}

#[test]
fn successful_signup_goes_through_every_step() {
    let mut users = Vec::new();
    let events = [
        SignupEvent::Availability { free_locally: true, free_on_ledger: true, phone_verified: true },
        SignupEvent::KeysGenerated,
        SignupEvent::AccountCreated { failed: false },
        SignupEvent::SecretSealed,
        SignupEvent::UserPersisted,
        SignupEvent::CredentialIssued,
    ];
    assert_eq!(run(&events, &mut users), SignupPhase::Done);
    assert_eq!(users.len(), 1);
}

#[test]
fn availability_needs_both_checks() {
    let p = SignupPhase::CheckAvailability;
    let taken_on_ledger = SignupEvent::Availability { free_locally: true, free_on_ledger: false, phone_verified: true };
    assert_eq!(advance(p, taken_on_ledger), SignupPhase::Aborted(SignupAbort::UnavailableUsername));
    let taken_locally = SignupEvent::Availability { free_locally: false, free_on_ledger: true, phone_verified: true };
    assert_eq!(advance(p, taken_locally), SignupPhase::Aborted(SignupAbort::UnavailableUsername));
    let unverified = SignupEvent::Availability { free_locally: true, free_on_ledger: true, phone_verified: false };
    assert_eq!(advance(p, unverified), SignupPhase::Aborted(SignupAbort::UnverifiedUser));
    assert_eq!(advance(SignupPhase::SealSecret, SignupEvent::CallFailed), SignupPhase::Aborted(SignupAbort::LedgerFailure));
    assert_eq!(advance(SignupPhase::PersistUser, SignupEvent::CallFailed), SignupPhase::Aborted(SignupAbort::StoreFailure));
    assert_eq!(abort_error(SignupAbort::LedgerFailure), None);
    assert!(username_available(0, true));
    assert!(!username_available(1, true));
    assert!(!username_available(0, false));
    assert_eq!(ledger_account_id("alice"), "alice.testnet");
}

#[test]
fn wallet_decisions() {
    let keys = vec!["ed25519:AAA".to_string(), "ed25519:BBB".to_string()];
    assert!(key_listed(&keys, "ed25519:BBB"));
    assert!(!key_listed(&keys, "ed25519:CCC"));
    assert_eq!(check_existing_seller(false, Role::Seller, true), Err(UserError::WrongWalletPubKey));
    assert_eq!(check_existing_seller(true, Role::Buyer, true), Err(UserError::OnlySeller));
    assert_eq!(check_existing_seller(true, Role::Seller, false), Err(UserError::BadSignature));
    assert_eq!(check_existing_seller(true, Role::Seller, true), Ok(()));
    assert_eq!(check_new_seller_identity(true, true, false, false), Err(UserError::UnavailableUsername));
    assert_eq!(check_new_seller_identity(false, true, true, false), Err(UserError::UnavailableEmail));
    assert_eq!(check_new_seller_identity(false, false, true, true), Err(UserError::UnavailableName));
    assert_eq!(check_new_seller_identity(false, false, false, true), Err(UserError::UnavailablePhoneNumber));
    assert_eq!(check_new_seller_identity(false, false, false, false), Ok(()));
    assert_eq!(check_login_wallet(false, Some(Role::Buyer), true), Err(UserError::BadSignature));
    assert_eq!(check_login_wallet(true, None, true), Err(UserError::UserNotFound));
    assert_eq!(check_login_wallet(true, Some(Role::Buyer), false), Err(UserError::WrongWalletPubKey));
    assert_eq!(check_login_wallet(true, Some(Role::Seller), true), Err(UserError::OnlyBuyer));
    assert_eq!(check_login_wallet(true, Some(Role::Buyer), true), Ok(()));
}

#[test]
fn endpoint_roles() {
    assert_eq!(endpoint_role("BUYER", &vec![Role::Buyer]), Ok(Role::Buyer));
    assert_eq!(endpoint_role("seller", &vec![Role::Buyer]), Err(UserError::OnlyBuyer));
    assert_eq!(endpoint_role("buyer", &vec![Role::Seller]), Err(UserError::OnlySeller));
    assert_eq!(endpoint_role("admin", &vec![Role::Seller, Role::Admin]), Ok(Role::Admin));
    assert_eq!(
        endpoint_role("buyer", &vec![Role::Seller, Role::Admin]),
        Err(UserError::UnallowedUserRole("buyer".to_string()))
    );
    assert_eq!(endpoint_role("pirate", &vec![Role::Buyer]), Err(UserError::UnallowedUserRole("pirate".to_string())));
}

#[test]
fn challenges_are_base58_of_the_text() {
    assert_eq!(signing_challenge("123456"), bs58::encode("123456").into_string());
    let c = signing_challenge(SIGNIN_CHALLENGE_TEXT);
    assert_eq!(bs58::decode(&c).into_vec().unwrap(), b"SECRET".to_vec());
}
