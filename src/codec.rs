//! Bearer credentials: issuing and validating signed tokens that carry a
//! subject id, a role and an expiry, and the role gate in front of private
//! endpoints.

use vstd::prelude::*;
use crate::error::{ApiError, AuthError};
use crate::roles::{Role, role_name, role_of_name};
use crate::text::{parse_uuid, uuid_of};
use jsonwebtoken::{Algorithm, DecodingKey, EncodingKey, Header, Validation};

verus! {

/// Lifetime of a credential: sixty minutes, in seconds.
pub const CREDENTIAL_LIFETIME_SECS: u64 = 3600;

/// The token `jsonwebtoken::encode` produces for the claims `sub`, `role`,
/// `exp`, under an HS512 header and the secret `key`.
pub uninterp spec fn hs512_token_of(sub: Seq<char>, role: Seq<char>, exp: u64, key: Seq<u8>) -> Seq<char>;

/// The claims `sub`, `role` and `exp` that `jsonwebtoken::decode` recovers from
/// `token` after checking its HS512 signature under `key`, if it does.
pub uninterp spec fn hs512_claims_of(token: Seq<char>, key: Seq<u8>) -> Option<(Seq<char>, Seq<char>, u64)>;

pub open spec fn claims_view(c: Option<(String, String, u64)>) -> Option<(Seq<char>, Seq<char>, u64)> {
    match c {
        Some((s, r, e)) => Some((s@, r@, e)),
        None => None,
    }
}

/// Relies on `jsonwebtoken::encode` with `Header::new(Algorithm::HS512)` and
/// `EncodingKey::from_secret`: a signed token that depends on the claims and
/// the secret alone. It cannot fail here: the key's family matches the
/// algorithm, a map of strings and an integer always serialises, and HMAC
/// signing accepts any key.
#[verifier::external_body]
fn hs512_encode(sub: &str, role: &str, exp: u64, key: &[u8]) -> (r: Option<String>)
    ensures
        r is Some,
        r matches Some(t) ==> t@ == hs512_token_of(sub@, role@, exp, key@),
{
    let mut claims = serde_json::Map::new();
    claims.insert("sub".to_string(), serde_json::Value::from(sub));
    claims.insert("role".to_string(), serde_json::Value::from(role));
    claims.insert("exp".to_string(), serde_json::Value::from(exp));
    let header = Header::new(Algorithm::HS512);
    jsonwebtoken::encode(&header, &claims, &EncodingKey::from_secret(key)).ok()
}

/// Relies on `jsonwebtoken::decode` with `Validation::new(Algorithm::HS512)`,
/// its own clock check switched off: the claims of a token whose signature
/// verifies under `key`; a token that `encode` made under the same key gives
/// back the claims it was made from.
#[verifier::external_body]
fn hs512_decode(token: &str, key: &[u8]) -> (r: Option<(String, String, u64)>)
    ensures
        claims_view(r) == hs512_claims_of(token@, key@),
        forall|s: Seq<char>, ro: Seq<char>, e: u64| token@ == #[trigger] hs512_token_of(s, ro, e, key@)
            ==> claims_view(r) == Some((s, ro, e)),
{
    let mut validation = Validation::new(Algorithm::HS512);
    validation.validate_exp = false;
    validation.required_spec_claims.clear();
    let data = jsonwebtoken::decode::<serde_json::Map<String, serde_json::Value>>(token, &DecodingKey::from_secret(key), &validation);
    let c = data.ok()?.claims;
    let sub = c.get("sub")?.as_str()?.to_string();
    let role = c.get("role")?.as_str()?.to_string();
    Some((sub, role, c.get("exp")?.as_u64()?))
}

/// The process-wide signing secret, loaded once at startup and never changed.
pub struct SigningKey {
    secret: Vec<u8>,
}

impl View for SigningKey {
    type V = Seq<u8>;

    closed spec fn view(&self) -> Seq<u8> {
        self.secret@
    }
}

impl SigningKey {
    pub fn new(secret: Vec<u8>) -> (r: SigningKey)
        ensures
            r@ == secret@,
    {
        SigningKey { secret }
    }
}

/// What validating a credential's claims at a given time comes to.
pub enum CredentialCheck {
    Valid(Seq<char>, Role),
    Invalid,
    Expired,
    BadRole(Seq<char>),
}

/// Signature first (no claims without it), then expiry, then the role claim,
/// which must be one of the canonical role names.
pub open spec fn credential_outcome(claims: Option<(Seq<char>, Seq<char>, u64)>, now: u64) -> CredentialCheck {
    match claims {
        None => CredentialCheck::Invalid,
        Some((sub, role, exp)) => if now > exp {
            CredentialCheck::Expired
        } else {
            match role_of_name(role) {
                Some(r) => CredentialCheck::Valid(sub, r),
                None => CredentialCheck::BadRole(role),
            }
        },
    }
}

pub open spec fn validation_matches(r: Result<(String, Role), AuthError>, c: CredentialCheck) -> bool {
    match c {
        CredentialCheck::Valid(sub, role) => r matches Ok((s, x)) && s@ == sub && x == role,
        CredentialCheck::Invalid => r == Err::<(String, Role), AuthError>(AuthError::JWTTokenError),
        CredentialCheck::Expired => r == Err::<(String, Role), AuthError>(AuthError::JWTTokenExpiredError),
        CredentialCheck::BadRole(role) => r matches Err(AuthError::BadEncodedUserRole(t)) && t@ == role,
    }
}

/// The expiry of a credential issued at `now` (seconds).
pub open spec fn expiry_of(now: u64) -> u64 {
    (now + CREDENTIAL_LIFETIME_SECS) as u64
}

/// Issues a credential for `uid` with `role`, issued at `now` (seconds) and
/// expiring sixty minutes later.
pub fn create_jwt(uid: &str, role: &Role, now: u64, key: &SigningKey) -> (r: Result<String, AuthError>)
    requires
        now + CREDENTIAL_LIFETIME_SECS <= u64::MAX,
    ensures
        r matches Ok(t) && t@ == hs512_token_of(uid@, role_name(*role), expiry_of(now), key@),
{
    let exp = now + CREDENTIAL_LIFETIME_SECS;
    match hs512_encode(uid, role.as_str(), exp, key.secret.as_slice()) {
        Some(t) => Ok(t),
        None => Err(AuthError::JWTTokenCreationError),
    }
}

/// Decides on a credential's decoded claims at `now`. The role claim must be
/// exactly one of the lower-case names `create_jwt` writes; a claim in any
/// other spelling is refused as a bad role rather than coerced.
pub fn check_claims(claims: Option<(String, String, u64)>, now: u64) -> (r: Result<(String, Role), AuthError>)
    ensures
        validation_matches(r, credential_outcome(claims_view(claims), now)),
{
    match claims {
        None => Err(AuthError::JWTTokenError),
        Some((sub, role, exp)) => {
            if now > exp {
                return Err(AuthError::JWTTokenExpiredError);
            }
            match Role::from_lowercase_name(role.as_str()) {
                Some(x) => Ok((sub, x)),
                None => Err(AuthError::BadEncodedUserRole(role)),
            }
        },
    }
}

/// Validates a credential at `now` (seconds): its signature, then its expiry,
/// then its role claim; returns the subject and role it carries.
pub fn validate(token: &str, key: &SigningKey, now: u64) -> (r: Result<(String, Role), AuthError>)
    ensures
        validation_matches(r, credential_outcome(hs512_claims_of(token@, key@), now)),
        forall|s: Seq<char>, ro: Seq<char>, e: u64| token@ == #[trigger] hs512_token_of(s, ro, e, key@)
            ==> hs512_claims_of(token@, key@) == Some((s, ro, e)),
{
    let claims = hs512_decode(token, key.secret.as_slice());
    check_claims(claims, now)
}

/// A credential issued for `subject` and `role` at `issued_at` carries the
/// claims (subject, role name, issue time plus sixty minutes), which
/// `validate` recovers from the token (see its `ensures`); those claims
/// validate to the same pair at every time up to the expiry, and are refused
/// as expired at every time after it.
pub proof fn lemma_issued_credential_round_trip(subject: Seq<char>, role: Role, issued_at: u64, now: u64)
    requires
        issued_at + CREDENTIAL_LIFETIME_SECS <= u64::MAX,
    ensures
        credential_outcome(Some((subject, role_name(role), expiry_of(issued_at))), now)
            == if now <= issued_at + CREDENTIAL_LIFETIME_SECS {
            CredentialCheck::Valid(subject, role)
        } else {
            CredentialCheck::Expired
        },
{
    assert(role_name(Role::Admin) != role_name(Role::Seller));
    assert(role_name(Role::Admin) != role_name(Role::Buyer));
    assert(role_name(Role::Admin) != role_name(Role::SuperAdmin));
    assert(role_name(Role::Seller) != role_name(Role::Buyer));
    assert(role_name(Role::Seller) != role_name(Role::SuperAdmin));
    assert(role_name(Role::Buyer) != role_name(Role::SuperAdmin));
}


/// A private request whose authorization header carries a credential issued
/// for `subject` and `role` at `issued_at` is answered with the subject's id at
/// every time up to sixty minutes later, provided the role is listed and the
/// subject is a uuid, and is refused as expired at every time after; this
/// holds of every result that `authorize` may give, since it reads the
/// header's token back to its claims (see its `ensures`).
pub proof fn lemma_issued_credential_authorizes(
    subject: Seq<char>,
    role: Role,
    roles: Seq<Role>,
    issued_at: u64,
    now: u64,
    key: Seq<u8>,
    r: Result<u128, ApiError>,
)
    requires
        issued_at + CREDENTIAL_LIFETIME_SECS <= u64::MAX,
    ensures
        ({
            let token = hs512_token_of(subject, role_name(role), expiry_of(issued_at), key);
            let header = bearer_prefix() + token;
            &&& has_bearer_prefix(header)
            &&& header.skip(7) == token
            &&& (reads_back(token, key) && authorization_matches(r, roles, Some(header), key, now)) ==> (
            if now > issued_at + CREDENTIAL_LIFETIME_SECS {
                r == Err::<u128, ApiError>(ApiError::Auth(AuthError::JWTTokenExpiredError))
            } else if !roles.contains(role) {
                r == Err::<u128, ApiError>(ApiError::Auth(AuthError::NoPermissionError))
            } else {
                match uuid_of(subject) {
                    Some(id) => r == Ok::<u128, ApiError>(id),
                    None => r is Err,
                }
            })
        }),
{
    let token = hs512_token_of(subject, role_name(role), expiry_of(issued_at), key);
    let header = bearer_prefix() + token;
    assert(header.subrange(0, 7) =~= bearer_prefix());
    assert(header.skip(7) =~= token);
    lemma_issued_credential_round_trip(subject, role, issued_at, now);
}

/// The scheme word that opens an authorization header, with its space.
pub open spec fn bearer_prefix() -> Seq<char> {
    seq!['B', 'e', 'a', 'r', 'e', 'r', ' ']
}

pub open spec fn has_bearer_prefix(h: Seq<char>) -> bool {
    h.len() >= 7 && h.subrange(0, 7) == bearer_prefix()
}

/// The token an authorization header carries: absent headers and headers
/// that do not open with the bearer scheme are refused.
pub fn jwt_from_header(header: Option<&str>) -> (r: Result<String, AuthError>)
    ensures
        (match header {
            None => r == Err::<String, AuthError>(AuthError::NoAuthHeaderError),
            Some(h) => if has_bearer_prefix(h@) {
                r matches Ok(t) && t@ == h@.skip(7)
            } else {
                r == Err::<String, AuthError>(AuthError::InvalidAuthHeaderError)
            },
        }),
{
    let h = match header {
        None => return Err(AuthError::NoAuthHeaderError),
        Some(h) => h,
    };
    let n = h.unicode_len();
    let prefix = ['B', 'e', 'a', 'r', 'e', 'r', ' '];
    if n < 7 {
        proof {
            assert(!has_bearer_prefix(h@));
        }
        return Err(AuthError::InvalidAuthHeaderError);
    }
    let mut i: usize = 0;
    while i < 7
        invariant
            i <= 7 <= n,
            header == Some(h),
            n == h@.len(),
            prefix@ == bearer_prefix(),
            forall|j: int| 0 <= j < i ==> h@[j] == bearer_prefix()[j],
        decreases 7 - i,
    {
        let c = h.get_char(i);
        let p = prefix[i];
        if c != p {
            proof {
                assert(p == bearer_prefix()[i as int]);
                assert(h@.subrange(0, 7)[i as int] != bearer_prefix()[i as int]);
                assert(h@.subrange(0, 7) != bearer_prefix());
            }
            return Err(AuthError::InvalidAuthHeaderError);
        }
        i = i + 1;
    }
    assert(h@.subrange(0, 7) =~= bearer_prefix());
    let t = h.substring_char(7, n);
    assert(t@ =~= h@.skip(7));
    Ok(String::from_str(t))
}

/// The role gate: a credential's role passes exactly when it is listed;
/// there is no hierarchy among roles.
pub fn check_role(roles: &Vec<Role>, role: Role) -> (r: Result<(), AuthError>)
    ensures
        roles@.contains(role) ==> r == Ok::<(), AuthError>(()),
        !roles@.contains(role) ==> r == Err::<(), AuthError>(AuthError::NoPermissionError),
{
    let mut i: usize = 0;
    while i < roles.len()
        invariant
            i <= roles@.len(),
            forall|j: int| 0 <= j < i ==> roles@[j] != role,
        decreases roles@.len() - i,
    {
        if roles[i] == role {
            return Ok(());
        }
        i = i + 1;
    }
    Err(AuthError::NoPermissionError)
}

/// The verdict on validated credential claims: an unlisted role is refused,
/// and the subject must be a uuid.
pub open spec fn claims_authorize(r: Result<u128, ApiError>, roles: Seq<Role>, c: CredentialCheck) -> bool {
    match c {
        CredentialCheck::Invalid => r == Err::<u128, ApiError>(ApiError::Auth(AuthError::JWTTokenError)),
        CredentialCheck::Expired => r == Err::<u128, ApiError>(ApiError::Auth(AuthError::JWTTokenExpiredError)),
        CredentialCheck::BadRole(role) => r matches Err(ApiError::Auth(AuthError::BadEncodedUserRole(t))) && t@ == role,
        CredentialCheck::Valid(sub, role) => if !roles.contains(role) {
            r == Err::<u128, ApiError>(ApiError::Auth(AuthError::NoPermissionError))
        } else {
            match uuid_of(sub) {
                Some(id) => r == Ok::<u128, ApiError>(id),
                None => r matches Err(ApiError::UnparsableUuid(t)) && t@ == sub,
            }
        },
    }
}

/// The verdict on a private request: the header must be present and carry a
/// bearer credential, whose claims decide as `claims_authorize` says.
pub open spec fn authorization_matches(r: Result<u128, ApiError>, roles: Seq<Role>, header: Option<Seq<char>>, key: Seq<u8>, now: u64) -> bool {
    match header {
        None => r == Err::<u128, ApiError>(ApiError::Auth(AuthError::NoAuthHeaderError)),
        Some(h) => if !has_bearer_prefix(h) {
            r == Err::<u128, ApiError>(ApiError::Auth(AuthError::InvalidAuthHeaderError))
        } else {
            claims_authorize(r, roles, credential_outcome(hs512_claims_of(h.skip(7), key), now))
        },
    }
}

/// A credential's token read back under the key it was made with gives back
/// its claims.
pub open spec fn reads_back(token: Seq<char>, key: Seq<u8>) -> bool {
    forall|s: Seq<char>, ro: Seq<char>, e: u64| token == #[trigger] hs512_token_of(s, ro, e, key)
        ==> hs512_claims_of(token, key) == Some((s, ro, e))
}

pub open spec fn opt_view(h: Option<&str>) -> Option<Seq<char>> {
    match h {
        Some(s) => Some(s@),
        None => None,
    }
}

/// Authorizes a private request: reads the bearer credential from the
/// authorization header, validates it at `now`, checks its role against
/// `roles`, and returns the subject's id.
pub fn authorize(roles: &Vec<Role>, header: Option<&str>, key: &SigningKey, now: u64) -> (r: Result<u128, ApiError>)
    ensures
        authorization_matches(r, roles@, opt_view(header), key@, now),
        (match header {
            Some(h) => has_bearer_prefix(h@) ==> reads_back(h@.skip(7), key@),
            None => true,
        }),
{
    let jwt = match jwt_from_header(header) {
        Ok(t) => t,
        Err(e) => return Err(ApiError::Auth(e)),
    };
    let (sub, role) = match validate(jwt.as_str(), key, now) {
        Ok(v) => v,
        Err(e) => return Err(ApiError::Auth(e)),
    };
    match check_role(roles, role) {
        Ok(()) => {},
        Err(e) => return Err(ApiError::Auth(e)),
    }
    match parse_uuid(sub.as_str()) {
        Some(id) => Ok(id),
        None => Err(ApiError::UnparsableUuid(sub)),
    }
}

} // verus!
