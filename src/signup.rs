//! Decisions of the wallet-linked signup and sign-in flows. The flows talk to
//! the ledger, the store and the message services; these functions decide,
//! from what those returned, what happens next.

use vstd::prelude::*;
use vstd::utf8::encode_utf8;
use crate::error::{ApiError, AuthError, UserError};
use crate::password::{argon2_verdict_of, verify_password};
use crate::roles::{Role, role_name, role_of_text};
use crate::text::{join2, str_eq};
use crate::keys::{base58, base58_of};

verus! {

/// The ledger network that human-readable account ids live under.
pub open spec fn network_suffix() -> Seq<char> {
    seq!['.', 't', 'e', 's', 't', 'n', 'e', 't']
}

/// The ledger account id for a chosen handle: the handle under the network suffix.
pub fn ledger_account_id(username: &str) -> (r: String)
    ensures
        r@ == username@ + network_suffix(),
{
    proof {
        reveal_strlit(".testnet");
        assert(".testnet"@ =~= network_suffix());
    }
    join2(username, ".testnet")
}

/// Deposit sent to a newly created wallet account, in ledger units.
pub const WALLET_CREATION_DEPOSIT_AMOUNT: &'static str = "0.2";

/// The fixed word a seller's wallet signs to sign in.
pub const SIGNIN_CHALLENGE_TEXT: &'static str = "SECRET";

/// The text a wallet signs for a challenge: the base58 text of the
/// challenge's UTF-8 bytes. Challenges are the fixed sign-in word or a
/// server-issued login code, never caller-chosen text.
pub fn signing_challenge(challenge: &str) -> (r: String)
    ensures
        r@ == base58_of(encode_utf8(challenge@)),
{
    base58(challenge.as_bytes())
}

/// A handle is available when no local user has it and the ledger has no account for it.
pub fn username_available(local_matches: usize, ledger_available: bool) -> (r: bool)
    ensures
        r == (local_matches == 0 && ledger_available),
{
    local_matches == 0 && ledger_available
}

/// The steps of a wallet-linked signup, in order; each names the work to do next.
#[derive(Debug, Clone, Copy, PartialEq, Eq, Structural)]
pub enum SignupPhase {
    CheckAvailability,
    GenerateKeys,
    CreateAccount,
    SealSecret,
    PersistUser,
    IssueCredential,
    Done,
    Aborted(SignupAbort),
}

/// Why a signup stopped.
#[derive(Debug, Clone, Copy, PartialEq, Eq, Structural)]
pub enum SignupAbort {
    UnavailableUsername,
    UnverifiedUser,
    WalletCreationFailed,
    LedgerFailure,
    StoreFailure,
    CredentialFailure,
}

/// What the work of a step came back with.
#[derive(Debug, Clone, Copy, PartialEq, Eq, Structural)]
pub enum SignupEvent {
    Availability { free_locally: bool, free_on_ledger: bool, phone_verified: bool },
    KeysGenerated,
    AccountCreated { failed: bool },
    SecretSealed,
    UserPersisted,
    CredentialIssued,
    CallFailed,
}

pub open spec fn abort_of_call(phase: SignupPhase) -> SignupAbort {
    match phase {
        SignupPhase::PersistUser => SignupAbort::StoreFailure,
        SignupPhase::IssueCredential => SignupAbort::CredentialFailure,
        _ => SignupAbort::LedgerFailure,
    }
}

/// The next step. Availability must hold both locally and on the ledger, and
/// the phone must be verified; a ledger-reported failure of account creation
/// aborts; the local user is written only after the secret has been sealed;
/// an aborted or finished signup stays as it is.
pub open spec fn signup_next(phase: SignupPhase, event: SignupEvent) -> SignupPhase {
    match phase {
        SignupPhase::Aborted(a) => SignupPhase::Aborted(a),
        SignupPhase::Done => SignupPhase::Done,
        _ => match event {
            SignupEvent::CallFailed => SignupPhase::Aborted(abort_of_call(phase)),
            SignupEvent::Availability { free_locally, free_on_ledger, phone_verified } => if phase
                == SignupPhase::CheckAvailability {
                if !(free_locally && free_on_ledger) {
                    SignupPhase::Aborted(SignupAbort::UnavailableUsername)
                } else if !phone_verified {
                    SignupPhase::Aborted(SignupAbort::UnverifiedUser)
                } else {
                    SignupPhase::GenerateKeys
                }
            } else {
                phase
            },
            SignupEvent::KeysGenerated => if phase == SignupPhase::GenerateKeys {
                SignupPhase::CreateAccount
            } else {
                phase
            },
            SignupEvent::AccountCreated { failed } => if phase == SignupPhase::CreateAccount {
                if failed {
                    SignupPhase::Aborted(SignupAbort::WalletCreationFailed)
                } else {
                    SignupPhase::SealSecret
                }
            } else {
                phase
            },
            SignupEvent::SecretSealed => if phase == SignupPhase::SealSecret {
                SignupPhase::PersistUser
            } else {
                phase
            },
            SignupEvent::UserPersisted => if phase == SignupPhase::PersistUser {
                SignupPhase::IssueCredential
            } else {
                phase
            },
            SignupEvent::CredentialIssued => if phase == SignupPhase::IssueCredential {
                SignupPhase::Done
            } else {
                phase
            },
        },
    }
}

/// The step a signup reaches from `phase` after a run of events.
pub open spec fn signup_run(phase: SignupPhase, events: Seq<SignupEvent>) -> SignupPhase
    decreases events.len(),
{
    if events.len() == 0 {
        phase
    } else {
        signup_run(signup_next(phase, events[0]), events.skip(1))
    }
}

/// Advances a signup by one event.
pub fn advance(phase: SignupPhase, event: SignupEvent) -> (r: SignupPhase)
    ensures
        r == signup_next(phase, event),
        r == SignupPhase::PersistUser ==> phase == SignupPhase::PersistUser || (phase == SignupPhase::SealSecret
            && event == SignupEvent::SecretSealed),
{
    match phase {
        SignupPhase::Aborted(a) => SignupPhase::Aborted(a),
        SignupPhase::Done => SignupPhase::Done,
        _ => match event {
            SignupEvent::CallFailed => SignupPhase::Aborted(match phase {
                SignupPhase::PersistUser => SignupAbort::StoreFailure,
                SignupPhase::IssueCredential => SignupAbort::CredentialFailure,
                _ => SignupAbort::LedgerFailure,
            }),
            SignupEvent::Availability { free_locally, free_on_ledger, phone_verified } => {
                if phase == SignupPhase::CheckAvailability {
                    if !(free_locally && free_on_ledger) {
                        SignupPhase::Aborted(SignupAbort::UnavailableUsername)
                    } else if !phone_verified {
                        SignupPhase::Aborted(SignupAbort::UnverifiedUser)
                    } else {
                        SignupPhase::GenerateKeys
                    }
                } else {
                    phase
                }
            },
            SignupEvent::KeysGenerated => if phase == SignupPhase::GenerateKeys {
                SignupPhase::CreateAccount
            } else {
                phase
            },
            SignupEvent::AccountCreated { failed } => if phase == SignupPhase::CreateAccount {
                if failed {
                    SignupPhase::Aborted(SignupAbort::WalletCreationFailed)
                } else {
                    SignupPhase::SealSecret
                }
            } else {
                phase
            },
            SignupEvent::SecretSealed => if phase == SignupPhase::SealSecret {
                SignupPhase::PersistUser
            } else {
                phase
            },
            SignupEvent::UserPersisted => if phase == SignupPhase::PersistUser {
                SignupPhase::IssueCredential
            } else {
                phase
            },
            SignupEvent::CredentialIssued => if phase == SignupPhase::IssueCredential {
                SignupPhase::Done
            } else {
                phase
            },
        },
    }
}

/// The user-facing error of an aborted signup.
pub fn abort_error(a: SignupAbort) -> (r: Option<UserError>)
    ensures
        a == SignupAbort::UnavailableUsername ==> r == Some(UserError::UnavailableUsername),
        a == SignupAbort::UnverifiedUser ==> r == Some(UserError::UnverifiedUser),
        a == SignupAbort::WalletCreationFailed ==> r == Some(UserError::WalletCreationFailed),
        a != SignupAbort::UnavailableUsername && a != SignupAbort::UnverifiedUser && a
            != SignupAbort::WalletCreationFailed ==> r is None,
{
    match a {
        SignupAbort::UnavailableUsername => Some(UserError::UnavailableUsername),
        SignupAbort::UnverifiedUser => Some(UserError::UnverifiedUser),
        SignupAbort::WalletCreationFailed => Some(UserError::WalletCreationFailed),
        _ => None,
    }
}

/// An aborted signup stays aborted, with the same reason, whatever comes after.
pub proof fn lemma_abort_is_final(a: SignupAbort, events: Seq<SignupEvent>)
    ensures
        signup_run(SignupPhase::Aborted(a), events) == SignupPhase::Aborted(a),
    decreases events.len(),
{
    if events.len() > 0 {
        lemma_abort_is_final(a, events.skip(1));
    }
}

/// When the ledger reports that creating the account failed, the signup ends
/// as `WalletCreationFailed` whatever else happens, and so never reaches the
/// step that writes the local user.
pub proof fn lemma_ledger_failure_leaves_no_user(before: Seq<SignupEvent>, after: Seq<SignupEvent>)
    requires
        signup_run(SignupPhase::CheckAvailability, before) == SignupPhase::CreateAccount,
    ensures
        signup_run(SignupPhase::CheckAvailability, before + seq![SignupEvent::AccountCreated { failed: true }] + after)
            == SignupPhase::Aborted(SignupAbort::WalletCreationFailed),
        forall|k: int| 0 <= k <= after.len() ==> #[trigger] signup_run(
            SignupPhase::CheckAvailability,
            before + seq![SignupEvent::AccountCreated { failed: true }] + after.take(k),
        ) != SignupPhase::PersistUser,
{
    let fail = seq![SignupEvent::AccountCreated { failed: true }];
    assert forall|k: int| 0 <= k <= after.len() implies #[trigger] signup_run(
        SignupPhase::CheckAvailability,
        before + fail + after.take(k),
    ) == SignupPhase::Aborted(SignupAbort::WalletCreationFailed) by {
        lemma_run_append(SignupPhase::CheckAvailability, before, fail + after.take(k));
        assert(before + fail + after.take(k) =~= before + (fail + after.take(k)));
        assert((fail + after.take(k))[0] == SignupEvent::AccountCreated { failed: true });
        assert((fail + after.take(k)).skip(1) =~= after.take(k));
        lemma_abort_is_final(SignupAbort::WalletCreationFailed, after.take(k));
    }
    assert(after.take(after.len() as int) =~= after);
}

proof fn lemma_run_append(phase: SignupPhase, a: Seq<SignupEvent>, b: Seq<SignupEvent>)
    ensures
        signup_run(phase, a + b) == signup_run(signup_run(phase, a), b),
    decreases a.len(),
{
    if a.len() > 0 {
        assert((a + b).skip(1) =~= a.skip(1) + b);
        assert((a + b)[0] == a[0]);
        lemma_run_append(signup_next(phase, a[0]), a.skip(1), b);
    }
}

/// Whether `pub_key` is among the keys the ledger lists for an account.
pub fn key_listed(keys: &Vec<String>, pub_key: &str) -> (r: bool)
    ensures
        r == exists|i: int| 0 <= i < keys@.len() && (#[trigger] keys@[i])@ == pub_key@,
{
    let mut i: usize = 0;
    while i < keys.len()
        invariant
            i <= keys@.len(),
            forall|j: int| 0 <= j < i ==> (#[trigger] keys@[j])@ != pub_key@,
        decreases keys@.len() - i,
    {
        if str_eq(keys[i].as_str(), pub_key) {
            return true;
        }
        i = i + 1;
    }
    false
}

/// The role an endpoint is called with must be a known role and one of those
/// the endpoint allows; a single-role endpoint names the role it wants.
pub fn endpoint_role(role_text: &str, allowed: &Vec<Role>) -> (r: Result<Role, UserError>)
    ensures
        (match role_of_text(role_text@) {
            None => r matches Err(UserError::UnallowedUserRole(t)) && t@ == role_text@,
            Some(x) => if allowed@.contains(x) {
                r == Ok::<Role, UserError>(x)
            } else if allowed@ == seq![Role::Buyer] {
                r == Err::<Role, UserError>(UserError::OnlyBuyer)
            } else if allowed@ == seq![Role::Seller] {
                r == Err::<Role, UserError>(UserError::OnlySeller)
            } else {
                r matches Err(UserError::UnallowedUserRole(_))
            },
        }),
{
    let role = match Role::try_from_str(role_text) {
        Ok(x) => x,
        Err(_) => return Err(UserError::UnallowedUserRole(String::from_str(role_text))),
    };
    let mut i: usize = 0;
    while i < allowed.len()
        invariant
            i <= allowed@.len(),
            role_of_text(role_text@) == Some(role),
            forall|j: int| 0 <= j < i ==> allowed@[j] != role,
        decreases allowed@.len() - i,
    {
        if allowed[i] == role {
            assert(allowed@[i as int] == role);
            return Ok(role);
        }
        i = i + 1;
    }
    assert(!allowed@.contains(role));
    if allowed.len() == 1 && allowed[0] == Role::Buyer {
        assert(allowed@ =~= seq![Role::Buyer]);
        Err(UserError::OnlyBuyer)
    } else if allowed.len() == 1 && allowed[0] == Role::Seller {
        assert(allowed@ =~= seq![Role::Seller]);
        Err(UserError::OnlySeller)
    } else {
        proof {
            if allowed@ == seq![Role::Buyer] {
                assert(allowed@[0] == Role::Buyer);
            }
            if allowed@ == seq![Role::Seller] {
                assert(allowed@[0] == Role::Seller);
            }
        }
        Err(UserError::UnallowedUserRole(String::from_str(role.as_str())))
    }
}

/// Sign-in of a known seller wallet: the submitted key must be listed for the
/// wallet on the ledger, the user must be a seller, and the ledger must accept
/// the signature of the challenge.
pub fn check_existing_seller(key_is_listed: bool, user_role: Role, signature_verified: bool) -> (r: Result<(), UserError>)
    ensures
        !key_is_listed ==> r == Err::<(), UserError>(UserError::WrongWalletPubKey),
        key_is_listed && user_role != Role::Seller ==> r == Err::<(), UserError>(UserError::OnlySeller),
        key_is_listed && user_role == Role::Seller && !signature_verified ==> r == Err::<(), UserError>(UserError::BadSignature),
        key_is_listed && user_role == Role::Seller && signature_verified ==> r == Ok::<(), UserError>(()),
{
    if !key_is_listed {
        Err(UserError::WrongWalletPubKey)
    } else if user_role != Role::Seller {
        Err(UserError::OnlySeller)
    } else if !signature_verified {
        Err(UserError::BadSignature)
    } else {
        Ok(())
    }
}

/// Sign-up of a new seller wallet: username, email, name and phone number
/// must each be free, in that order of checking.
pub fn check_new_seller_identity(username_taken: bool, email_taken: bool, name_taken: bool, phone_taken: bool) -> (r: Result<(), UserError>)
    ensures
        username_taken ==> r == Err::<(), UserError>(UserError::UnavailableUsername),
        !username_taken && email_taken ==> r == Err::<(), UserError>(UserError::UnavailableEmail),
        !username_taken && !email_taken && name_taken ==> r == Err::<(), UserError>(UserError::UnavailableName),
        !username_taken && !email_taken && !name_taken && phone_taken ==> r == Err::<(), UserError>(UserError::UnavailablePhoneNumber),
        !username_taken && !email_taken && !name_taken && !phone_taken ==> r == Ok::<(), UserError>(()),
{
    if username_taken {
        Err(UserError::UnavailableUsername)
    } else if email_taken {
        Err(UserError::UnavailableEmail)
    } else if name_taken {
        Err(UserError::UnavailableName)
    } else if phone_taken {
        Err(UserError::UnavailablePhoneNumber)
    } else {
        Ok(())
    }
}

/// Redemption of a login code by a wallet: the ledger must accept the
/// signature of the code, the wallet must belong to a known user, the key must
/// be listed for it, and the user must be a buyer.
pub fn check_login_wallet(signature_verified: bool, user_role: Option<Role>, key_is_listed: bool) -> (r: Result<(), UserError>)
    ensures
        !signature_verified ==> r == Err::<(), UserError>(UserError::BadSignature),
        signature_verified && user_role is None ==> r == Err::<(), UserError>(UserError::UserNotFound),
        signature_verified && user_role is Some && !key_is_listed ==> r == Err::<(), UserError>(UserError::WrongWalletPubKey),
        signature_verified && key_is_listed && user_role is Some && user_role != Some(Role::Buyer) ==> r == Err::<(), UserError>(UserError::OnlyBuyer),
        signature_verified && key_is_listed && user_role == Some(Role::Buyer) ==> r == Ok::<(), UserError>(()),
{
    if !signature_verified {
        return Err(UserError::BadSignature);
    }
    match user_role {
        None => Err(UserError::UserNotFound),
        Some(x) => if !key_is_listed {
            Err(UserError::WrongWalletPubKey)
        } else if x != Role::Buyer {
            Err(UserError::OnlyBuyer)
        } else {
            Ok(())
        },
    }
}


/// Sign-in with a password: the stored user's role must be one the endpoint
/// allows, the user must have a password, and the password must match it.
pub fn check_password_signin(allowed: &Vec<Role>, user_role: Role, stored_hash: Option<&str>, password: &[u8]) -> (r: Result<(), ApiError>)
    ensures
        !allowed@.contains(user_role) ==> (r matches Err(ApiError::User(UserError::UnallowedUserRole(t))) && t@ == role_name(user_role)),
        allowed@.contains(user_role) && stored_hash is None ==> r == Err::<(), ApiError>(ApiError::User(UserError::NoPassword)),
        (match stored_hash {
            Some(h) => allowed@.contains(user_role) ==> (match argon2_verdict_of(h@, password@) {
                Some(true) => r == Ok::<(), ApiError>(()),
                Some(false) => r == Err::<(), ApiError>(ApiError::Auth(AuthError::WrongCredentialsError)),
                None => r matches Err(ApiError::Hash(_)),
            }),
            None => true,
        }),
{
    let mut i: usize = 0;
    let mut found = false;
    while i < allowed.len()
        invariant
            i <= allowed@.len(),
            found == exists|j: int| 0 <= j < i && allowed@[j] == user_role,
        decreases allowed@.len() - i,
    {
        if allowed[i] == user_role {
            found = true;
        }
        i = i + 1;
    }
    if !found {
        return Err(ApiError::User(UserError::UnallowedUserRole(String::from_str(user_role.as_str()))));
    }
    let hash = match stored_hash {
        Some(h) => h,
        None => return Err(ApiError::User(UserError::NoPassword)),
    };
    match verify_password(hash, password) {
        Ok(true) => Ok(()),
        Ok(false) => Err(ApiError::Auth(AuthError::WrongCredentialsError)),
        Err(e) => Err(ApiError::Hash(e)),
    }
}

} // verus!
