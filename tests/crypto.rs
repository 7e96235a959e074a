use gql_api::error::{HashError, UserError};
use gql_api::keys::{check_implicit_account, check_normal_account, verify_signature_with_pub_key, NearAccount};
use gql_api::password::{hash_password, hash_password_with_salt, verify_password};

#[test]
fn password_hash_round_trip() {
    let h = hash_password(b"correct horse").unwrap();
    assert!(h.starts_with("$argon2"));
    assert_eq!(verify_password(&h, b"correct horse"), Ok(true));
    assert_eq!(verify_password(&h, b"wrong horse"), Ok(false));
    assert!(matches!(verify_password("not a hash", b"x"), Err(HashError::Verify(_))));
}

#[test]
fn password_salt_is_fresh_each_time() {
    let a = hash_password(b"pw").unwrap();
    let b = hash_password(b"pw").unwrap();
    assert_ne!(a, b);
    let s1 = hash_password_with_salt(b"pw", b"0123456789abcdef").unwrap();
    let s2 = hash_password_with_salt(b"pw", b"0123456789abcdef").unwrap();
    assert_eq!(s1, s2);
    assert!(matches!(hash_password_with_salt(b"pw", b"ab"), Err(HashError::Encode(_))));
}

#[test]
fn implicit_account_keys_sign_and_verify() {
    let account = NearAccount::new_implicit().unwrap();
    let id = account.account_id_hex_encoded();
    assert_eq!(id.len(), 64);
    assert!(id.chars().all(|c| c.is_ascii_digit() || ('a'..='f').contains(&c)));
    assert_eq!(check_implicit_account(id), Ok(true));
    let pk = bs58::decode(account.pub_key_b58_encoded()).into_vec().unwrap();
    assert_eq!(hex::encode(&pk), id);
    assert_eq!(bs58::decode(account.secret_key_b58_encoded()).into_vec().unwrap().len(), 64);

    let (sig, sig_text) = account.sign_message(b"SECRET");
    assert_eq!(bs58::decode(&sig_text).into_vec().unwrap(), sig);
    assert!(account.verify_signature(b"SECRET", &sig).is_ok());
    assert!(account.verify_signature(b"OTHER", &sig).is_err());
    assert!(verify_signature_with_pub_key(&pk, b"SECRET", &sig).is_ok());
    assert!(verify_signature_with_pub_key(&pk, b"SECRET", &sig[..10]).is_err());
}

#[test]
fn fixed_secret_gives_fixed_account() {
    let a = NearAccount::from_secret(&[7u8; 32]).unwrap();
    let b = NearAccount::from_secret(&[7u8; 32]).unwrap();
    assert_eq!(a.account_id_hex_encoded(), b.account_id_hex_encoded());
    assert_eq!(a.pub_key_b58_encoded(), b.pub_key_b58_encoded());
}

#[test]
fn account_id_classes() {
    assert_eq!(check_normal_account("alice.testnet"), Ok(true));
    assert_eq!(check_normal_account("system"), Ok(false));
    let hex64 = "98793cd91a3f870fb126f66285808c7e094afcfc4eda8a970f6648cdf0dbd6de";
    assert_eq!(check_normal_account(hex64), Ok(false));
    assert_eq!(check_implicit_account(hex64), Ok(true));
    assert_eq!(check_implicit_account("alice.near"), Ok(false));
    assert!(matches!(check_implicit_account("Bad Id!"), Err(UserError::AccountParse(_))));
}
