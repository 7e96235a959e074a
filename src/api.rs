//! Request and response values at the service boundary.

use vstd::prelude::*;
use crate::models::DbUser;
use crate::roles::{role_name, status_name};
use crate::session::{
    CreateFailure, LOGIN_EXPIRY_MS, SessionKind, SessionStore, VerificationSession, code_has_form, has_id, kind_policy,
    new_code,
};
use crate::text::{uuid_text, uuid_text_of};

verus! {

#[derive(Debug, Clone)]
pub struct BuyerCreateRecoveryCodeRequest {
    pub phone_number: String,
}

#[derive(Debug, Clone)]
pub struct BuyerCreateRecoveryCodeResponse {
    pub session_id: String,
}

#[derive(Debug, Clone)]
pub struct BuyerVerifyRecoveryCodeRequest {
    pub session_id: String,
    pub recovery_code: String,
}

#[derive(Debug, Clone)]
pub struct BuyerVerifyRecoveryCodeResponse {
    pub encrypted_secret_key: String,
    pub jwt: Option<String>,
    pub wallet_id: String,
}

#[derive(Debug, Clone)]
pub struct BuyerRegisterPhoneRequest {
    pub phone_number: String,
}

#[derive(Debug, Clone)]
pub struct BuyerRegisterPhoneResponse {
    pub session_id: String,
}

#[derive(Debug, Clone)]
pub struct BuyerVerifyPhoneRequest {
    pub session_id: String,
    pub verification_code: String,
}

#[derive(Debug, Clone, Copy)]
pub struct BuyerVerifyPhoneResponse {
    pub is_verified: bool,
}

#[derive(Debug, Clone)]
pub struct BuyerSignupRequest {
    pub name: Option<String>,
    pub email: Option<String>,
    pub username: String,
    pub password: Option<String>,
    pub secret: String,
    pub session_id: String,
}

#[derive(Debug, Clone)]
pub struct BuyerSignupResponse {
    pub id: String,
    pub name: Option<String>,
    pub username: String,
    pub phone_number: Option<String>,
    pub email: Option<String>,
    pub created_at: i64,
    pub wallet_id: String,
    pub wallet_pub_key: Option<String>,
    pub wallet_encrypted_secret_key: Option<String>,
    pub wallet_balance: String,
    pub user_type: String,
    pub user_status: String,
    pub jwt: Option<String>,
}

#[derive(Debug, Clone)]
pub struct SigninRequest {
    pub email: Option<String>,
    pub name: Option<String>,
    pub username: String,
    pub phone_number: Option<String>,
    pub password: Option<String>,
    pub signature: Option<String>,
    pub wallet_id: Option<String>,
    pub pub_key: Option<String>,
}

#[derive(Debug, Clone)]
pub struct SigninWithPasswordRequest {
    pub username: String,
    pub password: String,
}

#[derive(Debug, Clone)]
pub struct SigninResponse {
    pub token: String,
}

#[derive(Debug, Clone)]
pub struct CheckUsernameRequest {
    pub username: String,
}

#[derive(Debug, Clone, Copy)]
pub struct CheckUsernameResponse {
    pub available: bool,
}

#[derive(Debug, Clone, Copy)]
pub struct CreateLoginCodeRequest {}

#[derive(Debug, Clone)]
pub struct CreateLoginCodeResponse {
    pub code: String,
    pub expires_at: i64,
}

#[derive(Debug, Clone)]
pub struct VerifyLoginCodeRequest {
    pub code: String,
    pub signature: String,
    pub wallet_id: String,
    pub pub_key: String,
}

#[derive(Debug, Clone, Copy)]
pub struct VerifyLoginCodeResponse {}

#[derive(Debug, Clone)]
pub struct EventTicketReservation {
    pub ticket_id: String,
    pub quantity: i64,
}

#[derive(Debug, Clone)]
pub struct EventTicketGetVerificationCodeRequest {
    pub event_id: String,
    pub reservations: Vec<EventTicketReservation>,
}

#[derive(Debug, Clone)]
pub struct EventGetVerificationCodeResponse {
    pub verification_code: String,
}

#[derive(Debug, Clone)]
pub struct GetEventFromVerificationCodeRequest {
    pub verification_code: String,
}

#[derive(Debug, Clone)]
pub struct ErrorResponse {
    pub message: String,
    pub status: String,
    pub errors: Option<Vec<FieldError>>,
}

#[derive(Debug, Clone)]
pub struct FieldError {
    pub field: String,
    pub field_errors: Vec<String>,
}

#[derive(Debug, Clone)]
pub struct NewMintNftsRequest {
    pub ticket_id: String,
}

#[derive(Debug, Clone)]
pub struct NewMintNftsResponse {
    pub tx_hash: String,
}

#[derive(Debug, Clone)]
pub struct NewEvent {
    pub event_name: String,
}

/// Which events a listing returns.
#[derive(Debug, Clone, Copy, PartialEq, Eq, Structural)]
pub enum EventFilter {
    Featured,
    NoneFeatured,
    All,
}

impl BuyerCreateRecoveryCodeResponse {
    /// The response that hands a new recovery session's id to the caller.
    pub fn from_session(s: &VerificationSession) -> (r: BuyerCreateRecoveryCodeResponse)
        ensures
            r.session_id@ == uuid_text_of(s.id),
    {
        BuyerCreateRecoveryCodeResponse { session_id: uuid_text(s.id) }
    }
}

impl BuyerRegisterPhoneResponse {
    /// The response that hands a new signup session's id to the caller.
    pub fn from_session(s: &VerificationSession) -> (r: BuyerRegisterPhoneResponse)
        ensures
            r.session_id@ == uuid_text_of(s.id),
    {
        BuyerRegisterPhoneResponse { session_id: uuid_text(s.id) }
    }
}

impl BuyerVerifyPhoneResponse {
    /// Whether the phone of a signup session has been verified.
    pub fn from_session(s: &VerificationSession) -> (r: BuyerVerifyPhoneResponse)
        ensures
            r.is_verified == s.consumed,
    {
        BuyerVerifyPhoneResponse { is_verified: s.consumed }
    }
}

impl CreateLoginCodeResponse {
    /// The login code and when it expires, for a passwordless-login session.
    pub fn from_session(s: &VerificationSession) -> (r: CreateLoginCodeResponse)
        requires
            s.expires_at matches Some(e) ==> e <= i64::MAX,
        ensures
            r.code == s.code,
            r.expires_at == (match s.expires_at {
                Some(e) => e as i64,
                None => 0i64,
            }),
    {
        let expires_at = match s.expires_at {
            Some(e) => e as i64,
            None => 0,
        };
        CreateLoginCodeResponse { code: s.code.clone(), expires_at }
    }
}


impl BuyerSignupResponse {
    /// The new buyer as reported back: no credential and no public key yet
    /// (the flow adds those), and the creation time in seconds.
    pub fn from_user(u: DbUser) -> (r: BuyerSignupResponse)
        ensures
            r.id@ == uuid_text_of(u.id),
            r.name == u.name && r.username == u.username && r.phone_number == u.phone_number,
            r.email == u.email && r.wallet_id == u.wallet_id && r.wallet_balance == u.wallet_balance,
            r.created_at as int == (if u.created_at >= 0 { u.created_at / 1000 } else { -((-u.created_at) / 1000) }),
            r.wallet_pub_key is None && r.jwt is None,
            r.wallet_encrypted_secret_key == u.encrypted_secret_key,
            r.user_type@ == role_name(u.user_type),
            r.user_status@ == status_name(u.user_status),
    {
        BuyerSignupResponse {
            id: uuid_text(u.id),
            name: u.name,
            username: u.username,
            phone_number: u.phone_number,
            email: u.email,
            created_at: u.created_at / 1000,
            wallet_id: u.wallet_id,
            wallet_pub_key: None,
            wallet_encrypted_secret_key: u.encrypted_secret_key,
            wallet_balance: u.wallet_balance,
            user_type: String::from_str(u.user_type.as_str()),
            user_status: String::from_str(u.user_status.as_str()),
            jwt: None,
        }
    }
}

impl BuyerVerifyRecoveryCodeResponse {
    /// What a recovered buyer gets back: the sealed secret key (empty if the
    /// user has none) and the wallet id; the flow adds the credential.
    pub fn from_user(u: DbUser) -> (r: BuyerVerifyRecoveryCodeResponse)
        ensures
            r.encrypted_secret_key@ == (match u.encrypted_secret_key {
                Some(k) => k@,
                None => Seq::<char>::empty(),
            }),
            r.jwt is None,
            r.wallet_id == u.wallet_id,
    {
        let encrypted_secret_key = match u.encrypted_secret_key {
            Some(k) => k,
            None => String::new(),
        };
        BuyerVerifyRecoveryCodeResponse { encrypted_secret_key, jwt: None, wallet_id: u.wallet_id }
    }
}


/// Opens a passwordless-login session `id` at `now` (milliseconds) with a
/// fresh 6-digit code: the store gains exactly that session, unconsumed, bound
/// to no user and expiring five minutes later; the response carries the code
/// and that expiry. A taken id is refused and the store is unchanged.
pub fn create_login_code(store: &mut SessionStore, id: u128, now: u64) -> (r: Result<CreateLoginCodeResponse, CreateFailure>)
    requires
        old(store).wf(),
        now + LOGIN_EXPIRY_MS <= i64::MAX,
    ensures
        final(store).wf(),
        has_id(old(store)@, id) ==> r == Err::<CreateLoginCodeResponse, CreateFailure>(CreateFailure::DuplicateId)
            && final(store)@ == old(store)@,
        !has_id(old(store)@, id) ==> (match r {
            Ok(resp) => {
                &&& code_has_form(kind_policy(SessionKind::Login), resp.code@)
                &&& resp.expires_at == now + LOGIN_EXPIRY_MS
                &&& final(store)@ == old(store)@.push(VerificationSession {
                    id,
                    kind: SessionKind::Login,
                    created_at: now,
                    code: resp.code,
                    consumed: false,
                    expires_at: Some((now + LOGIN_EXPIRY_MS) as u64),
                    subject: None,
                    phone_number: None,
                })
            },
            Err(_) => false,
        }),
{
    let code = new_code(SessionKind::Login);
    let s = VerificationSession::open(id, SessionKind::Login, now, code, None, None);
    let resp = CreateLoginCodeResponse::from_session(&s);
    match store.create(s) {
        Ok(()) => Ok(resp),
        Err(e) => Err(e),
    }
}

} // verus!
