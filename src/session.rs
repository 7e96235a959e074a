//! The one-time verification code engine shared by phone signup, account
//! recovery, passwordless login and ticket redemption.
//!
//! A session is consumed by a single atomic step that checks, in order, that
//! the session exists, that it is not consumed, that it has not expired, and
//! that the submitted code matches; only then is it marked consumed.

use vstd::prelude::*;
use crate::error::SessionError;
use crate::text::{join2, push_char, str_eq};

verus! {

/// The four flows that hand out one-time codes.
#[derive(Debug, Clone, Copy, PartialEq, Eq, Structural)]
pub enum SessionKind {
    Signup,
    Recovery,
    Login,
    Reservation,
}

/// The characters a code is drawn from.
#[derive(Debug, Clone, Copy, PartialEq, Eq, Structural)]
pub enum CodeAlphabet {
    Numeric,
    Alphanumeric,
}

/// Per-flow parameters: the code's alphabet and length, and how long a session lives.
#[derive(Debug, Clone, Copy, PartialEq, Eq, Structural)]
pub struct FlowPolicy {
    pub alphabet: CodeAlphabet,
    pub code_len: usize,
    pub expiry_ms: Option<u64>,
}

/// Length of every code handed out by the four flows.
pub const CODE_LEN: usize = 6;

/// Lifetime of a passwordless-login session: five minutes.
pub const LOGIN_EXPIRY_MS: u64 = 300000;

pub open spec fn kind_policy(kind: SessionKind) -> FlowPolicy {
    match kind {
        SessionKind::Signup => FlowPolicy {
            alphabet: CodeAlphabet::Alphanumeric,
            code_len: CODE_LEN,
            expiry_ms: None,
        },
        SessionKind::Recovery => FlowPolicy {
            alphabet: CodeAlphabet::Alphanumeric,
            code_len: CODE_LEN,
            expiry_ms: None,
        },
        SessionKind::Login => FlowPolicy {
            alphabet: CodeAlphabet::Numeric,
            code_len: CODE_LEN,
            expiry_ms: Some(LOGIN_EXPIRY_MS),
        },
        SessionKind::Reservation => FlowPolicy {
            alphabet: CodeAlphabet::Numeric,
            code_len: CODE_LEN,
            expiry_ms: None,
        },
    }
}

impl SessionKind {
    /// The parameters of this flow.
    pub fn policy(self) -> (p: FlowPolicy)
        ensures
            p == kind_policy(self),
    {
        match self {
            SessionKind::Signup => FlowPolicy {
                alphabet: CodeAlphabet::Alphanumeric,
                code_len: CODE_LEN,
                expiry_ms: None,
            },
            SessionKind::Recovery => FlowPolicy {
                alphabet: CodeAlphabet::Alphanumeric,
                code_len: CODE_LEN,
                expiry_ms: None,
            },
            SessionKind::Login => FlowPolicy {
                alphabet: CodeAlphabet::Numeric,
                code_len: CODE_LEN,
                expiry_ms: Some(LOGIN_EXPIRY_MS),
            },
            SessionKind::Reservation => FlowPolicy {
                alphabet: CodeAlphabet::Numeric,
                code_len: CODE_LEN,
                expiry_ms: None,
            },
        }
    }
}

pub open spec fn is_ascii_alphanumeric(b: u8) -> bool {
    (48 <= b <= 57) || (65 <= b <= 90) || (97 <= b <= 122)
}

/// A random draw fits an alphabet when each value is one the alphabet's source yields:
/// digit values 0 to 9, or the ASCII bytes of letters and digits.
pub open spec fn draw_fits(alphabet: CodeAlphabet, draw: Seq<u8>) -> bool {
    forall|i: int| 0 <= i < draw.len() ==> match alphabet {
        CodeAlphabet::Numeric => #[trigger] draw[i] <= 9,
        CodeAlphabet::Alphanumeric => is_ascii_alphanumeric(draw[i]),
    }
}

/// The character one drawn value stands for.
pub open spec fn code_char(alphabet: CodeAlphabet, b: u8) -> char {
    match alphabet {
        CodeAlphabet::Numeric => ((b + 48) as u8) as char,
        CodeAlphabet::Alphanumeric => b as char,
    }
}

/// The code made of the first `len` drawn values.
pub open spec fn code_of_draw(alphabet: CodeAlphabet, draw: Seq<u8>, len: nat) -> Seq<char> {
    Seq::new(len, |i: int| code_char(alphabet, draw[i]))
}

/// A code has the form a flow asks for: its length, and only characters of its alphabet.
pub open spec fn code_has_form(p: FlowPolicy, code: Seq<char>) -> bool {
    &&& code.len() == p.code_len
    &&& forall|i: int| 0 <= i < code.len() ==> match p.alphabet {
        CodeAlphabet::Numeric => '0' <= #[trigger] code[i] <= '9',
        CodeAlphabet::Alphanumeric => ('0' <= code[i] <= '9') || ('A' <= code[i] <= 'Z') || ('a'
            <= code[i] <= 'z'),
    }
}

/// Builds a code from the first `len` values of a random draw.
pub fn code_from_draw(alphabet: CodeAlphabet, draw: &Vec<u8>, len: usize) -> (r: String)
    requires
        len <= draw@.len(),
        draw_fits(alphabet, draw@),
    ensures
        r@ == code_of_draw(alphabet, draw@, len as nat),
        code_has_form(FlowPolicy { alphabet, code_len: len, expiry_ms: None }, r@),
{
    let mut r = String::new();
    let mut i: usize = 0;
    while i < len
        invariant
            i <= len <= draw@.len(),
            draw_fits(alphabet, draw@),
            r@ == code_of_draw(alphabet, draw@, i as nat),
            code_has_form(FlowPolicy { alphabet, code_len: i, expiry_ms: None }, r@),
        decreases len - i,
    {
        let b = draw[i];
        assert(match alphabet {
            CodeAlphabet::Numeric => draw@[i as int] <= 9,
            CodeAlphabet::Alphanumeric => is_ascii_alphanumeric(draw@[i as int]),
        });
        let c = match alphabet {
            CodeAlphabet::Numeric => ((b + 48) as u8) as char,
            CodeAlphabet::Alphanumeric => b as char,
        };
        push_char(&mut r, c);
        i = i + 1;
        assert(r@ =~= code_of_draw(alphabet, draw@, i as nat));
    }
    r
}

/// One verification session, of any of the four flows.
#[derive(Debug)]
pub struct VerificationSession {
    pub id: u128,
    pub kind: SessionKind,
    pub created_at: u64,
    pub code: String,
    pub consumed: bool,
    pub expires_at: Option<u64>,
    pub subject: Option<u128>,
    pub phone_number: Option<String>,
}

/// Why a verification attempt failed.
#[derive(Debug, Clone, Copy, PartialEq, Eq, Structural)]
pub enum VerifyFailure {
    NotFound,
    Consumed,
    Expired,
    Mismatch,
}

/// Why a session could not be stored.
#[derive(Debug, Clone, Copy, PartialEq, Eq, Structural)]
pub enum CreateFailure {
    DuplicateId,
    MalformedCode,
}

/// The expiry a session of a flow gets when created at `now`.
pub open spec fn expiry_for(p: FlowPolicy, now: u64) -> Option<u64> {
    match p.expiry_ms {
        Some(e) => Some((now + e) as u64),
        None => None,
    }
}

pub open spec fn expiry_fits(kind: SessionKind, now: u64) -> bool {
    kind_policy(kind).expiry_ms matches Some(e) ==> now + e <= u64::MAX
}

/// A session has expired once "now" lies past its expiry.
pub open spec fn is_expired(s: VerificationSession, now: u64) -> bool {
    s.expires_at matches Some(e) && now > e
}

/// The result of submitting `code` at `now` to a session that was found (or not):
/// not-found first, then consumed, then expired, and only then the code comparison.
pub open spec fn verify_outcome(s: Option<VerificationSession>, code: Seq<char>, now: u64) -> Result<(), VerifyFailure> {
    match s {
        None => Err(VerifyFailure::NotFound),
        Some(s) => if s.consumed {
            Err(VerifyFailure::Consumed)
        } else if is_expired(s, now) {
            Err(VerifyFailure::Expired)
        } else if s.code@ != code {
            Err(VerifyFailure::Mismatch)
        } else {
            Ok(())
        },
    }
}

/// The session after a successful verification: consumed, and bound to the
/// resolved subject where one is given.
pub open spec fn consumed_session(s: VerificationSession, bind: Option<u128>) -> VerificationSession {
    VerificationSession {
        consumed: true,
        subject: if bind is Some { bind } else { s.subject },
        ..s
    }
}

impl VerificationSession {
    /// A fresh, unconsumed session of `kind` created at `now`, with the flow's expiry.
    pub fn open(
        id: u128,
        kind: SessionKind,
        now: u64,
        code: String,
        subject: Option<u128>,
        phone_number: Option<String>,
    ) -> (r: VerificationSession)
        requires
            expiry_fits(kind, now),
        ensures
            r == (VerificationSession {
                id,
                kind,
                created_at: now,
                code,
                consumed: false,
                expires_at: expiry_for(kind_policy(kind), now),
                subject,
                phone_number,
            }),
    {
        let p = kind.policy();
        let expires_at = match p.expiry_ms {
            Some(e) => Some(now + e),
            None => None,
        };
        VerificationSession { id, kind, created_at: now, code, consumed: false, expires_at, subject, phone_number }
    }

    /// A field-by-field copy.
    pub fn duplicate(&self) -> (r: VerificationSession)
        ensures
            r == *self,
    {
        let phone_number = match &self.phone_number {
            Some(p) => Some(p.clone()),
            None => None,
        };
        VerificationSession {
            id: self.id,
            kind: self.kind,
            created_at: self.created_at,
            code: self.code.clone(),
            consumed: self.consumed,
            expires_at: self.expires_at,
            subject: self.subject,
            phone_number,
        }
    }

    /// Whether the session has expired at `now`.
    pub fn expired_at(&self, now: u64) -> (r: bool)
        ensures
            r == is_expired(*self, now),
    {
        match self.expires_at {
            Some(e) => now > e,
            None => false,
        }
    }

    /// Checks a submitted code against this session without changing it.
    pub fn check(&self, code: &str, now: u64) -> (r: Result<(), VerifyFailure>)
        ensures
            r == verify_outcome(Some(*self), code@, now),
    {
        if self.consumed {
            Err(VerifyFailure::Consumed)
        } else if self.expired_at(now) {
            Err(VerifyFailure::Expired)
        } else if !str_eq(self.code.as_str(), code) {
            Err(VerifyFailure::Mismatch)
        } else {
            Ok(())
        }
    }
}

pub open spec fn has_id(ss: Seq<VerificationSession>, id: u128) -> bool {
    exists|i: int| 0 <= i < ss.len() && (#[trigger] ss[i]).id == id
}

pub open spec fn position_of(ss: Seq<VerificationSession>, id: u128) -> int {
    choose|i: int| 0 <= i < ss.len() && (#[trigger] ss[i]).id == id
}

/// The session stored under `id`, if any.
pub open spec fn lookup(ss: Seq<VerificationSession>, id: u128) -> Option<VerificationSession> {
    if has_id(ss, id) {
        Some(ss[position_of(ss, id)])
    } else {
        None
    }
}

pub open spec fn ids_unique(ss: Seq<VerificationSession>) -> bool {
    forall|i: int, j: int| 0 <= i < ss.len() && 0 <= j < ss.len() && i != j ==> (#[trigger] ss[i]).id != (#[trigger] ss[j]).id
}

/// The session of flow `kind` stored under `id`, if any; a session of
/// another flow is not found.
pub open spec fn lookup_kind(ss: Seq<VerificationSession>, id: u128, kind: SessionKind) -> Option<VerificationSession> {
    match lookup(ss, id) {
        Some(s) => if s.kind == kind {
            Some(s)
        } else {
            None
        },
        None => None,
    }
}

/// One atomic verification step over the stored sessions: the new contents
/// and the result.
pub open spec fn verify_step(
    ss: Seq<VerificationSession>,
    kind: SessionKind,
    id: u128,
    code: Seq<char>,
    now: u64,
    bind: Option<u128>,
) -> (Seq<VerificationSession>, Result<VerificationSession, VerifyFailure>) {
    match verify_outcome(lookup_kind(ss, id, kind), code, now) {
        Err(e) => (ss, Err(e)),
        Ok(()) => {
            let t = consumed_session(ss[position_of(ss, id)], bind);
            (ss.update(position_of(ss, id), t), Ok(t))
        },
    }
}

/// With unique ids, the session found under an id is the one stored at any
/// position holding that id.
pub proof fn lemma_position_unique(ss: Seq<VerificationSession>, id: u128, i: int)
    requires
        ids_unique(ss),
        0 <= i < ss.len(),
        ss[i].id == id,
    ensures
        has_id(ss, id),
        position_of(ss, id) == i,
        lookup(ss, id) == Some(ss[i]),
{
    let p = position_of(ss, id);
    assert(0 <= p < ss.len() && ss[p].id == id);
}

/// The sessions of all flows, keyed by their unique ids.
pub struct SessionStore {
    sessions: Vec<VerificationSession>,
}

impl View for SessionStore {
    type V = Seq<VerificationSession>;

    closed spec fn view(&self) -> Seq<VerificationSession> {
        self.sessions@
    }
}

impl SessionStore {
    pub open spec fn wf(&self) -> bool {
        ids_unique(self@)
    }

    /// An empty store.
    pub fn new() -> (r: SessionStore)
        ensures
            r.wf(),
            r@ == Seq::<VerificationSession>::empty(),
    {
        SessionStore { sessions: Vec::new() }
    }

    /// The index of the session stored under `id`, if any.
    fn find(&self, id: u128) -> (r: Option<usize>)
        requires
            self.wf(),
        ensures
            r is None <==> !has_id(self@, id),
            r matches Some(i) ==> i < self@.len() && self@[i as int].id == id && position_of(self@, id) == i,
    {
        let mut i: usize = 0;
        while i < self.sessions.len()
            invariant
                self.wf(),
                i <= self@.len(),
                forall|j: int| 0 <= j < i ==> (#[trigger] self@[j]).id != id,
            decreases self@.len() - i,
        {
            if self.sessions[i].id == id {
                proof { lemma_position_unique(self@, id, i as int); }
                return Some(i);
            }
            i = i + 1;
        }
        None
    }

    /// The id of the first stored session of `kind` whose code is `code`, if any.
    pub fn find_by_code(&self, kind: SessionKind, code: &str) -> (r: Option<u128>)
        ensures
            r matches Some(id) ==> exists|i: int| 0 <= i < self@.len() && (#[trigger] self@[i]).id == id
                && self@[i].kind == kind && self@[i].code@ == code@,
            r is None ==> forall|i: int| 0 <= i < self@.len() ==> !((#[trigger] self@[i]).kind == kind
                && self@[i].code@ == code@),
    {
        let mut i: usize = 0;
        while i < self.sessions.len()
            invariant
                i <= self@.len(),
                forall|j: int| 0 <= j < i ==> !((#[trigger] self@[j]).kind == kind && self@[j].code@ == code@),
            decreases self@.len() - i,
        {
            let s = &self.sessions[i];
            if s.kind == kind && str_eq(s.code.as_str(), code) {
                return Some(s.id);
            }
            i = i + 1;
        }
        None
    }

    /// The session stored under `id`, if any.
    pub fn get(&self, id: u128) -> (r: Option<&VerificationSession>)
        requires
            self.wf(),
        ensures
            r matches Some(s) ==> lookup(self@, id) == Some(*s),
            r is None ==> lookup(self@, id) is None,
    {
        match self.find(id) {
            Some(i) => Some(&self.sessions[i]),
            None => None,
        }
    }

    /// Stores a new session. A session whose id is taken, or whose code does
    /// not have the form its flow asks for, is refused and nothing changes.
    pub fn create(&mut self, s: VerificationSession) -> (r: Result<(), CreateFailure>)
        requires
            old(self).wf(),
        ensures
            final(self).wf(),
            has_id(old(self)@, s.id) ==> r == Err::<(), CreateFailure>(CreateFailure::DuplicateId)
                && final(self)@ == old(self)@,
            !has_id(old(self)@, s.id) && !code_has_form(kind_policy(s.kind), s.code@) ==> r
                == Err::<(), CreateFailure>(CreateFailure::MalformedCode) && final(self)@ == old(self)@,
            !has_id(old(self)@, s.id) && code_has_form(kind_policy(s.kind), s.code@) ==> r
                == Ok::<(), CreateFailure>(()) && final(self)@ == old(self)@.push(s),
    {
        if self.find(s.id).is_some() {
            return Err(CreateFailure::DuplicateId);
        }
        if !code_is_well_formed(s.kind.policy(), s.code.as_str()) {
            return Err(CreateFailure::MalformedCode);
        }
        let ghost before = self@;
        self.sessions.push(s);
        assert forall|i: int, j: int| 0 <= i < self@.len() && 0 <= j < self@.len() && i != j
            implies (#[trigger] self@[i]).id != (#[trigger] self@[j]).id by {
            if i < before.len() && j < before.len() {
                assert(before[i] == self@[i] && before[j] == self@[j]);
            } else if i < before.len() {
                assert(before[i] == self@[i]);
            } else {
                assert(before[j] == self@[j]);
            }
        }
        Ok(())
    }

    /// Submits `code` for the session `id` of flow `kind` at `now` as one
    /// atomic step: on success the session is marked consumed (and bound to
    /// `bind` where given) and returned; on failure nothing changes.
    pub fn verify(&mut self, kind: SessionKind, id: u128, code: &str, now: u64, bind: Option<u128>) -> (r: Result<VerificationSession, VerifyFailure>)
        requires
            old(self).wf(),
        ensures
            final(self).wf(),
            (final(self)@, r) == verify_step(old(self)@, kind, id, code@, now, bind),
    {
        match self.find(id) {
            None => Err(VerifyFailure::NotFound),
            Some(i) => {
                proof { lemma_position_unique(self@, id, i as int); }
                if self.sessions[i].kind != kind {
                    return Err(VerifyFailure::NotFound);
                }
                match self.sessions[i].check(code, now) {
                    Err(e) => Err(e),
                    Ok(()) => {
                        let mut t = self.sessions[i].duplicate();
                        t.consumed = true;
                        if bind.is_some() {
                            t.subject = bind;
                        }
                        let out = t.duplicate();
                        let ghost before = self@;
                        self.sessions.set(i, t);
                        assert forall|a: int, b: int| 0 <= a < self@.len() && 0 <= b < self@.len() && a != b
                            implies (#[trigger] self@[a]).id != (#[trigger] self@[b]).id by {
                            assert(self@[a].id == before[a].id);
                            assert(self@[b].id == before[b].id);
                        }
                        Ok(out)
                    },
                }
            },
        }
    }
}

/// A consumed session stays consumed: once a verification of session `id` has
/// succeeded, the next one fails as consumed, whatever code is submitted and
/// whenever, and changes nothing; so every later round fails in the same way.
pub proof fn lemma_consumed_code_fails_every_later_round(
    ss: Seq<VerificationSession>,
    kind: SessionKind,
    id: u128,
    code: Seq<char>,
    now: u64,
    bind: Option<u128>,
    later_code: Seq<char>,
    later: u64,
    later_bind: Option<u128>,
)
    requires
        ids_unique(ss),
        verify_step(ss, kind, id, code, now, bind).1 is Ok,
    ensures
        ({
            let after = verify_step(ss, kind, id, code, now, bind).0;
            &&& ids_unique(after)
            &&& lookup_kind(after, id, kind) matches Some(t) && t.consumed
            &&& verify_step(after, kind, id, later_code, later, later_bind) == (after, Err::<
                VerificationSession,
                VerifyFailure,
            >(VerifyFailure::Consumed))
        }),
{
    let p = position_of(ss, id);
    let after = verify_step(ss, kind, id, code, now, bind).0;
    assert(0 <= p < ss.len() && ss[p].id == id);
    assert(after[p].id == id);
    assert forall|i: int, j: int| 0 <= i < after.len() && 0 <= j < after.len() && i != j
        implies (#[trigger] after[i]).id != (#[trigger] after[j]).id by {
        assert(after[i].id == ss[i].id);
        assert(after[j].id == ss[j].id);
    }
    lemma_position_unique(after, id, p);
}

/// Two verifications of one unconsumed, unexpired session with its correct
/// code, serialised by the atomic step: the first succeeds and the second
/// observes that the session is consumed.
pub proof fn lemma_racing_verifications_one_wins(
    ss: Seq<VerificationSession>,
    kind: SessionKind,
    id: u128,
    code: Seq<char>,
    first_at: u64,
    second_at: u64,
    first_bind: Option<u128>,
    second_bind: Option<u128>,
)
    requires
        ids_unique(ss),
        lookup_kind(ss, id, kind) matches Some(s) && !s.consumed && !is_expired(s, first_at) && !is_expired(
            s,
            second_at,
        ) && s.code@ == code,
    ensures
        ({
            let (after, first) = verify_step(ss, kind, id, code, first_at, first_bind);
            &&& first is Ok
            &&& verify_step(after, kind, id, code, second_at, second_bind).1 == Err::<
                VerificationSession,
                VerifyFailure,
            >(VerifyFailure::Consumed)
        }),
{
    lemma_consumed_code_fails_every_later_round(ss, kind, id, code, first_at, first_bind, code, second_at, second_bind);
}

/// A passwordless-login session created at `t` still takes codes 299 seconds
/// later (its correct code succeeds, a wrong one is a mismatch, never an
/// expiry), and 301 seconds later it refuses every code as expired.
pub proof fn lemma_login_expiry_window(
    id: u128,
    t: u64,
    code: String,
    subject: Option<u128>,
    phone_number: Option<String>,
    submitted: Seq<char>,
)
    requires
        t + 301000 <= u64::MAX,
    ensures
        ({
            let s = VerificationSession {
                id,
                kind: SessionKind::Login,
                created_at: t,
                code,
                consumed: false,
                expires_at: expiry_for(kind_policy(SessionKind::Login), t),
                subject,
                phone_number,
            };
            &&& verify_outcome(Some(s), submitted, (t + 299000) as u64) == if submitted == code@ {
                Ok::<(), VerifyFailure>(())
            } else {
                Err(VerifyFailure::Mismatch)
            }
            &&& verify_outcome(Some(s), submitted, (t + 301000) as u64) == Err::<(), VerifyFailure>(
                VerifyFailure::Expired,
            )
        }),
{
}

/// Relies on `WasmiumRandom::secure_numeric12`: twelve values from a CSPRNG, each from 0 to 9.
#[verifier::external_body]
fn draw_numeric() -> (r: Vec<u8>)
    ensures
        r@.len() == 12,
        draw_fits(CodeAlphabet::Numeric, r@),
{
    wasmium_random::WasmiumRandom::secure_numeric12().to_vec()
}

/// Relies on `WasmiumRandom::secure_alphanumeric12`: twelve ASCII bytes from a
/// CSPRNG, each a digit or an ASCII letter.
#[verifier::external_body]
fn draw_alphanumeric() -> (r: Vec<u8>)
    ensures
        r@.len() == 12,
        draw_fits(CodeAlphabet::Alphanumeric, r@),
{
    wasmium_random::WasmiumRandom::secure_alphanumeric12().to_vec()
}

/// A fresh random code of the form the flow asks for.
pub fn new_code(kind: SessionKind) -> (r: String)
    ensures
        code_has_form(kind_policy(kind), r@),
{
    let p = kind.policy();
    let draw = match p.alphabet {
        CodeAlphabet::Numeric => draw_numeric(),
        CodeAlphabet::Alphanumeric => draw_alphanumeric(),
    };
    code_from_draw(p.alphabet, &draw, p.code_len)
}

/// The text an SMS of this flow opens with; flows that deliver otherwise have none.
pub open spec fn sms_prefix(kind: SessionKind) -> Option<Seq<char>> {
    match kind {
        SessionKind::Signup => Some("Your verification code is: "@),
        SessionKind::Recovery => Some("Your recovery code is: "@),
        _ => None,
    }
}

/// The SMS body that delivers `code`, for the flows that deliver by SMS.
pub fn sms_text(kind: SessionKind, code: &str) -> (r: Option<String>)
    ensures
        sms_prefix(kind) is None ==> r is None,
        sms_prefix(kind) matches Some(p) ==> (r matches Some(t) && t@ == p + code@),
{
    match kind {
        SessionKind::Signup => Some(join2("Your verification code is: ", code)),
        SessionKind::Recovery => Some(join2("Your recovery code is: ", code)),
        _ => None,
    }
}

/// The caller-facing error for a failed verification. `session_ref` is the
/// session identifier as the caller submitted it, `code` the submitted code.
pub fn session_error(kind: SessionKind, failure: VerifyFailure, session_ref: &str, code: &str) -> (r: SessionError)
    ensures
        failure == VerifyFailure::NotFound && kind != SessionKind::Login ==> (r matches SessionError::SessionNotFoundForUuid(t) && t@ == session_ref@),
        failure == VerifyFailure::NotFound && kind == SessionKind::Login ==> (r matches SessionError::NoSessionForToken(t) && t@ == code@),
        failure == VerifyFailure::Consumed ==> (r matches SessionError::UsedSession(t) && t@ == code@),
        failure == VerifyFailure::Expired ==> (r matches SessionError::ExpiredSession(t) && t@ == code@),
        failure == VerifyFailure::Mismatch && kind == SessionKind::Recovery ==> (r matches SessionError::SessionRecoveryCodeMismatch(t) && t@ == code@),
        failure == VerifyFailure::Mismatch && kind != SessionKind::Recovery ==> (r matches SessionError::SessionVerificationCodeMismatch(t) && t@ == code@),
{
    match failure {
        VerifyFailure::NotFound => match kind {
            SessionKind::Login => SessionError::NoSessionForToken(String::from_str(code)),
            _ => SessionError::SessionNotFoundForUuid(String::from_str(session_ref)),
        },
        VerifyFailure::Consumed => SessionError::UsedSession(String::from_str(code)),
        VerifyFailure::Expired => SessionError::ExpiredSession(String::from_str(code)),
        VerifyFailure::Mismatch => match kind {
            SessionKind::Recovery => SessionError::SessionRecoveryCodeMismatch(String::from_str(code)),
            _ => SessionError::SessionVerificationCodeMismatch(String::from_str(code)),
        },
    }
}

/// Checks that a code has the length and alphabet of a flow.
pub fn code_is_well_formed(p: FlowPolicy, code: &str) -> (r: bool)
    ensures
        r == code_has_form(p, code@),
{
    let n = code.unicode_len();
    if n != p.code_len {
        return false;
    }
    let mut i: usize = 0;
    while i < n
        invariant
            n == code@.len() == p.code_len,
            i <= n,
            forall|j: int| 0 <= j < i ==> match p.alphabet {
                CodeAlphabet::Numeric => '0' <= #[trigger] code@[j] <= '9',
                CodeAlphabet::Alphanumeric => ('0' <= code@[j] <= '9') || ('A' <= code@[j] <= 'Z')
                    || ('a' <= code@[j] <= 'z'),
            },
        decreases n - i,
    {
        let c = code.get_char(i);
        let ok = match p.alphabet {
            CodeAlphabet::Numeric => '0' <= c && c <= '9',
            CodeAlphabet::Alphanumeric => ('0' <= c && c <= '9') || ('A' <= c && c <= 'Z') || ('a' <= c && c <= 'z'),
        };
        if !ok {
            return false;
        }
        i = i + 1;
    }
    true
}

} // verus!
