use gql_api::api::create_login_code;
use gql_api::error::SessionError;
use gql_api::session::{
    code_is_well_formed, new_code, session_error, sms_text, CodeAlphabet, CreateFailure, FlowPolicy,
    SessionKind, SessionStore, VerificationSession, VerifyFailure,
};

const T: u64 = 1_700_000_000_000;

fn store_with(id: u128, kind: SessionKind, now: u64, code: &str, owner: Option<u128>) -> SessionStore {
    let mut store = SessionStore::new();
    let s = VerificationSession::open(id, kind, now, code.to_string(), owner, Some("+15551234567".to_string()));
    assert_eq!(store.create(s), Ok(()));
    store
}

#[test]
fn recovery_session_scenario() {
    let owner: u128 = 77;
    let id: u128 = 1;
    let code = "AB12CD";
    assert!(code_is_well_formed(SessionKind::Recovery.policy(), code));
    let sms = sms_text(SessionKind::Recovery, code).unwrap();
    assert_eq!(sms, "Your recovery code is: AB12CD");
    let mut store = store_with(id, SessionKind::Recovery, T, code, Some(owner));

    assert_eq!(store.verify(SessionKind::Recovery, id, "WRONG1", T + 10, None).unwrap_err(), VerifyFailure::Mismatch);
    assert!(!store.get(id).unwrap().consumed);

    let s = store.verify(SessionKind::Recovery, id, "AB12CD", T + 20, None).unwrap();
    assert!(s.consumed);
    assert_eq!(s.subject, Some(owner));
    assert!(store.get(id).unwrap().consumed);

    assert_eq!(store.verify(SessionKind::Recovery, id, "AB12CD", T + 30, None).unwrap_err(), VerifyFailure::Consumed);
}

#[test]
fn consumed_code_fails_every_later_round() {
    let mut store = store_with(5, SessionKind::Signup, T, "x9Y8z7", None);
    assert!(store.verify(SessionKind::Signup, 5, "x9Y8z7", T, None).is_ok());
    for round in 0..5u64 {
        assert_eq!(store.verify(SessionKind::Signup, 5, "x9Y8z7", T + round, None).unwrap_err(), VerifyFailure::Consumed);
        assert_eq!(store.verify(SessionKind::Signup, 5, "000000", T + round, None).unwrap_err(), VerifyFailure::Consumed);
    }
}

#[test]
fn login_code_expires_after_five_minutes() {
    let mut early = store_with(9, SessionKind::Login, T, "123456", None);
    assert_eq!(early.verify(SessionKind::Login, 9, "654321", T + 299_000, None).unwrap_err(), VerifyFailure::Mismatch);
    let s = early.verify(SessionKind::Login, 9, "123456", T + 299_000, Some(42)).unwrap();
    assert_eq!(s.subject, Some(42));

    let mut late = store_with(9, SessionKind::Login, T, "123456", None);
    assert_eq!(late.verify(SessionKind::Login, 9, "123456", T + 301_000, None).unwrap_err(), VerifyFailure::Expired);
    assert_eq!(late.verify(SessionKind::Login, 9, "000000", T + 301_000, None).unwrap_err(), VerifyFailure::Expired);
    assert!(!late.get(9).unwrap().consumed);
}

#[test]
fn login_expiry_boundary_is_inclusive() {
    let mut store = store_with(3, SessionKind::Login, T, "123456", None);
    assert_eq!(store.get(3).unwrap().expires_at, Some(T + 300_000));
    assert!(store.verify(SessionKind::Login, 3, "123456", T + 300_000, None).is_ok());
}

#[test]
fn racing_verifications_one_wins() {
    let mut store = store_with(11, SessionKind::Reservation, T, "987654", None);
    let first = store.verify(SessionKind::Reservation, 11, "987654", T + 1, None);
    let second = store.verify(SessionKind::Reservation, 11, "987654", T + 1, None);
    let wins = [first.is_ok(), second.is_ok()].iter().filter(|b| **b).count();
    assert_eq!(wins, 1);
    assert_eq!(second.unwrap_err(), VerifyFailure::Consumed);
}

#[test]
fn unknown_session_is_not_found() {
    let mut store = store_with(1, SessionKind::Signup, T, "abcdef", None);
    assert_eq!(store.verify(SessionKind::Signup, 2, "abcdef", T, None).unwrap_err(), VerifyFailure::NotFound);
    assert_eq!(store.verify(SessionKind::Recovery, 1, "abcdef", T, None).unwrap_err(), VerifyFailure::NotFound);
    assert!(!store.get(1).unwrap().consumed);
}

#[test]
fn duplicate_ids_and_malformed_codes_are_refused() {
    let mut store = store_with(1, SessionKind::Signup, T, "abcdef", None);
    let again = VerificationSession::open(1, SessionKind::Signup, T, "ghijkl".to_string(), None, None);
    assert_eq!(store.create(again), Err(CreateFailure::DuplicateId));
    let bad = VerificationSession::open(2, SessionKind::Login, T, "12ab56".to_string(), None, None);
    assert_eq!(store.create(bad), Err(CreateFailure::MalformedCode));
    let short = VerificationSession::open(3, SessionKind::Recovery, T, "abc".to_string(), None, None);
    assert_eq!(store.create(short), Err(CreateFailure::MalformedCode));
}

#[test]
fn find_by_code_looks_in_the_right_flow() {
    let mut store = store_with(1, SessionKind::Login, T, "111111", None);
    let other = VerificationSession::open(2, SessionKind::Reservation, T, "111111".to_string(), None, None);
    assert_eq!(store.create(other), Ok(()));
    assert_eq!(store.find_by_code(SessionKind::Reservation, "111111"), Some(2));
    assert_eq!(store.find_by_code(SessionKind::Login, "111111"), Some(1));
    assert_eq!(store.find_by_code(SessionKind::Signup, "111111"), None);
}

#[test]
fn fresh_codes_have_the_flow_form() {
    for kind in [SessionKind::Signup, SessionKind::Recovery, SessionKind::Login, SessionKind::Reservation] {
        let code = new_code(kind);
        assert_eq!(code.chars().count(), 6);
        assert!(code_is_well_formed(kind.policy(), &code));
        let numeric = kind.policy().alphabet == CodeAlphabet::Numeric;
        assert!(code.chars().all(|c| if numeric { c.is_ascii_digit() } else { c.is_ascii_alphanumeric() }));
    }
}

#[test]
fn flow_policies() {
    assert_eq!(
        SessionKind::Login.policy(),
        FlowPolicy { alphabet: CodeAlphabet::Numeric, code_len: 6, expiry_ms: Some(300_000) }
    );
    assert_eq!(SessionKind::Signup.policy().expiry_ms, None);
    assert_eq!(SessionKind::Recovery.policy().alphabet, CodeAlphabet::Alphanumeric);
    assert_eq!(sms_text(SessionKind::Signup, "a1b2c3").unwrap(), "Your verification code is: a1b2c3");
    assert_eq!(sms_text(SessionKind::Login, "123456"), None);
}

#[test]
fn session_errors_name_what_was_submitted() {
    assert_eq!(
        session_error(SessionKind::Recovery, VerifyFailure::Mismatch, "sid", "WRONG1"),
        SessionError::SessionRecoveryCodeMismatch("WRONG1".to_string())
    );
    assert_eq!(
        session_error(SessionKind::Signup, VerifyFailure::NotFound, "sid", "c"),
        SessionError::SessionNotFoundForUuid("sid".to_string())
    );
    assert_eq!(
        session_error(SessionKind::Login, VerifyFailure::NotFound, "sid", "c"),
        SessionError::NoSessionForToken("c".to_string())
    );
    assert_eq!(
        session_error(SessionKind::Login, VerifyFailure::Expired, "sid", "c"),
        SessionError::ExpiredSession("c".to_string())
    );
    assert_eq!(
        session_error(SessionKind::Signup, VerifyFailure::Consumed, "sid", "c"),
        SessionError::UsedSession("c".to_string())
    );
}

#[test]
fn login_code_creation_opens_one_session() {
    let mut store = SessionStore::new();
    let resp = create_login_code(&mut store, 21, T).unwrap();
    assert_eq!(resp.code.len(), 6);
    assert!(resp.code.chars().all(|c| c.is_ascii_digit()));
    assert_eq!(resp.expires_at, (T + 300_000) as i64);
    let s = store.get(21).unwrap();
    assert_eq!(s.code, resp.code);
    assert_eq!(s.kind, SessionKind::Login);
    assert!(!s.consumed);
    assert_eq!(s.subject, None);
    assert_eq!(s.expires_at, Some(T + 300_000));
    assert_eq!(store.find_by_code(SessionKind::Login, &resp.code), Some(21));
    assert_eq!(create_login_code(&mut store, 21, T).unwrap_err(), CreateFailure::DuplicateId);
}
