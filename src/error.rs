//! Error kinds of the identity and session layer.

use vstd::prelude::*;
use crate::text::join2;

verus! {

/// An error of the `near-account-id` parser, carried through unchanged.
#[verifier::external_type_specification]
#[verifier::external_body]
pub struct ExParseAccountError(near_account_id::ParseAccountError);

/// An error of the `argon2` hasher, carried through unchanged.
#[verifier::external_type_specification]
#[verifier::external_body]
pub struct ExArgon2Error(argon2::Error);

/// Password hashing errors.
#[derive(Debug, PartialEq)]
pub enum HashError {
    Encode(argon2::Error),
    Verify(argon2::Error),
}

/// Credential and permission errors.
#[derive(Clone, Debug, PartialEq, Eq)]
pub enum AuthError {
    WrongCredentialsError,
    JWTTokenError,
    JWTTokenExpiredError,
    JWTTokenCreationError,
    NoAuthHeaderError,
    InvalidAuthHeaderError,
    NoPermissionError,
    BadEncodedUserRole(String),
}

/// User-related errors.
#[derive(Debug, PartialEq, Eq)]
pub enum UserError {
    UserNotFound,
    NoPassword,
    UnknownUserRole(String),
    UnknownUserStatus(String),
    UnallowedUserRole(String),
    OnlySeller,
    OnlyBuyer,
    UnimplementedCase,
    WrongWalletPubKey,
    AccountParse(near_account_id::ParseAccountError),
    BadImplicitAccount,
    BadNormalAccount,
    MissingSignature,
    MissingWalletId,
    MissingPassword,
    MissingPubKey,
    WalletCreationFailed,
    BadSignature,
    UnavailableUsername,
    UnavailableName,
    UnavailableEmail,
    UnavailablePhoneNumber,
    UnverifiedUser,
}

/// Event-related errors.
#[derive(Clone, Debug, PartialEq, Eq)]
pub enum EventError {
    NoExistEventUuid(String),
}

/// Ticket-related errors.
#[derive(Clone, Debug, PartialEq, Eq)]
pub enum TicketError {
    TicketEventMismatch(String),
    NoExistTicketUuid(String),
    NoExistTicketWithCode(String),
    WrongUserReserved(String),
    NoTicketReservationsForCode(String),
    AlreadyReservedForUser(String),
}

/// Verification-session errors, each with the identifier or code the caller submitted.
#[derive(Clone, Debug, PartialEq, Eq)]
pub enum SessionError {
    SessionVerificationCodeMismatch(String),
    SessionRecoveryCodeMismatch(String),
    SessionNotFoundForUuid(String),
    NoSessionForToken(String),
    UsedSession(String),
    ExpiredSession(String),
}


/// A field-level validation failure of a request payload.
#[derive(Clone, Debug, PartialEq, Eq)]
pub struct ValidationError {
    pub field: String,
    pub message: String,
}

impl ValidationError {
    pub fn new(field: &str, message: &str) -> (r: ValidationError)
        ensures
            r.field@ == field@,
            r.message@ == message@,
    {
        ValidationError { field: String::from_str(field), message: String::from_str(message) }
    }
}

/// Errors of the query layer that the library itself raises.
#[derive(Clone, Debug, PartialEq, Eq)]
pub enum GqlError {
    UnknownEventStatus(String),
    ParseUUID,
    UnexpectedInternal,
    Validation(ValidationError),
}


/// Every failure the library reports, by kind.
#[derive(Debug, PartialEq)]
pub enum ApiError {
    Auth(AuthError),
    Hash(HashError),
    UnparsableUuid(String),
    User(UserError),
    Event(EventError),
    Ticket(TicketError),
    Session(SessionError),
    Gql(GqlError),
}


/// A text followed by a value in backquotes.
pub open spec fn quoted(prefix: Seq<char>, v: Seq<char>) -> Seq<char> {
    prefix + v + seq!['`']
}

fn quote(prefix: &str, v: &str) -> (r: String)
    ensures
        r@ == quoted(prefix@, v@),
{
    let s = join2(prefix, v);
    proof {
        reveal_strlit("`");
        assert("`"@ =~= seq!['`']);
    }
    s.concat("`")
}

/// The caller-facing text of a AuthError.
pub open spec fn auth_message(e: AuthError) -> Seq<char> {
    match e {
        AuthError::WrongCredentialsError => "Wrong Credentials"@,
        AuthError::JWTTokenError => "JWT Token not valid"@,
        AuthError::JWTTokenExpiredError => "JWT Token expired"@,
        AuthError::JWTTokenCreationError => "JWT Token Creation Error"@,
        AuthError::NoAuthHeaderError => "No Auth Header"@,
        AuthError::InvalidAuthHeaderError => "Invalid Auth Header"@,
        AuthError::NoPermissionError => "No Permission"@,
        AuthError::BadEncodedUserRole(s) => quoted("Bad Encoded User Role: `"@, s@),
    }
}

impl AuthError {
    /// The caller-facing text of the error.
    pub fn message(&self) -> (r: String)
        ensures
            r@ == auth_message(*self),
    {
        match self {
            AuthError::WrongCredentialsError => String::from_str("Wrong Credentials"),
            AuthError::JWTTokenError => String::from_str("JWT Token not valid"),
            AuthError::JWTTokenExpiredError => String::from_str("JWT Token expired"),
            AuthError::JWTTokenCreationError => String::from_str("JWT Token Creation Error"),
            AuthError::NoAuthHeaderError => String::from_str("No Auth Header"),
            AuthError::InvalidAuthHeaderError => String::from_str("Invalid Auth Header"),
            AuthError::NoPermissionError => String::from_str("No Permission"),
            AuthError::BadEncodedUserRole(s) => quote("Bad Encoded User Role: `", s.as_str()),
        }
    }
}
/// The caller-facing text of a UserError.
pub open spec fn user_message(e: UserError) -> Seq<char> {
    match e {
        UserError::UserNotFound => "User not found"@,
        UserError::NoPassword => "User has no password"@,
        UserError::UnknownUserRole(s) => quoted("Unknown User Role: `"@, s@),
        UserError::UnknownUserStatus(s) => quoted("Unknown User Status: `"@, s@),
        UserError::UnallowedUserRole(s) => quoted("Unallowed User Role: `"@, s@),
        UserError::OnlySeller => "Only sellers allowed/User is not a seller"@,
        UserError::OnlyBuyer => "Only buyers allowed/User is not a buyer"@,
        UserError::UnimplementedCase => "Unimplemented use case. Check parameters submitted"@,
        UserError::WrongWalletPubKey => "Wrong wallet public key"@,
        UserError::AccountParse(_) => "Unparsable implicit account"@,
        UserError::BadImplicitAccount => "Bad implicit account"@,
        UserError::BadNormalAccount => "Bad normal account"@,
        UserError::MissingSignature => "Missing signature"@,
        UserError::MissingWalletId => "Missing account/wallet Id"@,
        UserError::MissingPassword => "Missing password"@,
        UserError::MissingPubKey => "Missing pubic key"@,
        UserError::WalletCreationFailed => "User wallet creating Failed"@,
        UserError::BadSignature => "Bad signature"@,
        UserError::UnavailableUsername => "Unavailable Username"@,
        UserError::UnavailableName => "Unavailable Name"@,
        UserError::UnavailableEmail => "Unavailable Email"@,
        UserError::UnavailablePhoneNumber => "Unavailable Phone Number"@,
        UserError::UnverifiedUser => "User is not verified"@,
    }
}

impl UserError {
    /// The caller-facing text of the error.
    pub fn message(&self) -> (r: String)
        ensures
            r@ == user_message(*self),
    {
        match self {
            UserError::UserNotFound => String::from_str("User not found"),
            UserError::NoPassword => String::from_str("User has no password"),
            UserError::UnknownUserRole(s) => quote("Unknown User Role: `", s.as_str()),
            UserError::UnknownUserStatus(s) => quote("Unknown User Status: `", s.as_str()),
            UserError::UnallowedUserRole(s) => quote("Unallowed User Role: `", s.as_str()),
            UserError::OnlySeller => String::from_str("Only sellers allowed/User is not a seller"),
            UserError::OnlyBuyer => String::from_str("Only buyers allowed/User is not a buyer"),
            UserError::UnimplementedCase => String::from_str("Unimplemented use case. Check parameters submitted"),
            UserError::WrongWalletPubKey => String::from_str("Wrong wallet public key"),
            UserError::AccountParse(_) => String::from_str("Unparsable implicit account"),
            UserError::BadImplicitAccount => String::from_str("Bad implicit account"),
            UserError::BadNormalAccount => String::from_str("Bad normal account"),
            UserError::MissingSignature => String::from_str("Missing signature"),
            UserError::MissingWalletId => String::from_str("Missing account/wallet Id"),
            UserError::MissingPassword => String::from_str("Missing password"),
            UserError::MissingPubKey => String::from_str("Missing pubic key"),
            UserError::WalletCreationFailed => String::from_str("User wallet creating Failed"),
            UserError::BadSignature => String::from_str("Bad signature"),
            UserError::UnavailableUsername => String::from_str("Unavailable Username"),
            UserError::UnavailableName => String::from_str("Unavailable Name"),
            UserError::UnavailableEmail => String::from_str("Unavailable Email"),
            UserError::UnavailablePhoneNumber => String::from_str("Unavailable Phone Number"),
            UserError::UnverifiedUser => String::from_str("User is not verified"),
        }
    }
}
/// The caller-facing text of a SessionError.
pub open spec fn session_message(e: SessionError) -> Seq<char> {
    match e {
        SessionError::SessionVerificationCodeMismatch(s) => quoted("Verification code for the session is incorrect: `"@, s@),
        SessionError::SessionRecoveryCodeMismatch(s) => quoted("Recovery code for the session is incorrect: `"@, s@),
        SessionError::SessionNotFoundForUuid(s) => quoted("No session found for uuid: `"@, s@),
        SessionError::NoSessionForToken(s) => quoted("No session for token: `"@, s@),
        SessionError::UsedSession(s) => quoted("Used session for token: `"@, s@),
        SessionError::ExpiredSession(s) => quoted("Expired session for token: `"@, s@),
    }
}

impl SessionError {
    /// The caller-facing text of the error.
    pub fn message(&self) -> (r: String)
        ensures
            r@ == session_message(*self),
    {
        match self {
            SessionError::SessionVerificationCodeMismatch(s) => quote("Verification code for the session is incorrect: `", s.as_str()),
            SessionError::SessionRecoveryCodeMismatch(s) => quote("Recovery code for the session is incorrect: `", s.as_str()),
            SessionError::SessionNotFoundForUuid(s) => quote("No session found for uuid: `", s.as_str()),
            SessionError::NoSessionForToken(s) => quote("No session for token: `", s.as_str()),
            SessionError::UsedSession(s) => quote("Used session for token: `", s.as_str()),
            SessionError::ExpiredSession(s) => quote("Expired session for token: `", s.as_str()),
        }
    }
}
/// The caller-facing text of a TicketError.
pub open spec fn ticket_message(e: TicketError) -> Seq<char> {
    match e {
        TicketError::TicketEventMismatch(s) => quoted("Mismatching ticket event id: `"@, s@),
        TicketError::NoExistTicketUuid(s) => quoted("Non-existing ticket with uuid: `"@, s@),
        TicketError::NoExistTicketWithCode(s) => quoted("Non-existing ticket with code: `"@, s@),
        TicketError::WrongUserReserved(s) => quoted("Wrong ticket user reserved: `"@, s@),
        TicketError::NoTicketReservationsForCode(s) => quoted("No ticket reservations found for code: `"@, s@),
        TicketError::AlreadyReservedForUser(s) => quoted("Ticket has already been reserved for the user: `"@, s@),
    }
}

impl TicketError {
    /// The caller-facing text of the error.
    pub fn message(&self) -> (r: String)
        ensures
            r@ == ticket_message(*self),
    {
        match self {
            TicketError::TicketEventMismatch(s) => quote("Mismatching ticket event id: `", s.as_str()),
            TicketError::NoExistTicketUuid(s) => quote("Non-existing ticket with uuid: `", s.as_str()),
            TicketError::NoExistTicketWithCode(s) => quote("Non-existing ticket with code: `", s.as_str()),
            TicketError::WrongUserReserved(s) => quote("Wrong ticket user reserved: `", s.as_str()),
            TicketError::NoTicketReservationsForCode(s) => quote("No ticket reservations found for code: `", s.as_str()),
            TicketError::AlreadyReservedForUser(s) => quote("Ticket has already been reserved for the user: `", s.as_str()),
        }
    }
}
/// The caller-facing text of a EventError.
pub open spec fn event_message(e: EventError) -> Seq<char> {
    match e {
        EventError::NoExistEventUuid(s) => quoted("Non-existing event with uuid: `"@, s@),
    }
}

impl EventError {
    /// The caller-facing text of the error.
    pub fn message(&self) -> (r: String)
        ensures
            r@ == event_message(*self),
    {
        match self {
            EventError::NoExistEventUuid(s) => quote("Non-existing event with uuid: `", s.as_str()),
        }
    }
}

/// The text of a query-layer error.
pub open spec fn gql_message(e: GqlError) -> Seq<char> {
    match e {
        GqlError::UnknownEventStatus(s) => "Unknown event status ("@ + s@ + ")"@ + " error"@,
        GqlError::ParseUUID => "Parse UUID error"@,
        GqlError::UnexpectedInternal => "Unexpected Error"@,
        GqlError::Validation(v) => "(Field: "@ + v.field@ + ", Message: "@ + v.message@ + ")"@,
    }
}

impl GqlError {
    /// The caller-facing text of the error.
    pub fn message(&self) -> (r: String)
        ensures
            r@ == gql_message(*self),
    {
        match self {
            GqlError::UnknownEventStatus(s) => join2("Unknown event status (", s.as_str()).concat(")").concat(" error"),
            GqlError::ParseUUID => String::from_str("Parse UUID error"),
            GqlError::UnexpectedInternal => String::from_str("Unexpected Error"),
            GqlError::Validation(v) => join2("(Field: ", v.field.as_str()).concat(", Message: ").concat(v.message.as_str()).concat(")"),
        }
    }
}

/// The HTTP status a failure is reported with: malformed requests 400,
/// credential and signature failures 401, refused actions 403, and internal
/// failures 500.
pub open spec fn status_of(e: ApiError) -> u16 {
    match e {
        ApiError::Auth(a) => match a {
            AuthError::WrongCredentialsError => 403,
            AuthError::NoPermissionError => 401,
            AuthError::JWTTokenError => 401,
            AuthError::JWTTokenExpiredError => 401,
            AuthError::BadEncodedUserRole(_) => 401,
            AuthError::JWTTokenCreationError => 500,
            _ => 400,
        },
        ApiError::Hash(_) => 500,
        ApiError::UnparsableUuid(_) => 400,
        ApiError::User(_) => 403,
        ApiError::Event(_) => 403,
        ApiError::Ticket(_) => 403,
        ApiError::Session(_) => 403,
        ApiError::Gql(g) => match g {
            GqlError::UnexpectedInternal => 500,
            _ => 400,
        },
    }
}

/// The text a failure is reported with: internal failures say no more than
/// that; the others give their reason.
pub open spec fn public_message_of(e: ApiError) -> Seq<char> {
    if status_of(e) == 500 {
        "Internal Server Error"@
    } else {
        match e {
            ApiError::Auth(a) => auth_message(a),
            ApiError::UnparsableUuid(s) => s@,
            ApiError::User(u) => user_message(u),
            ApiError::Event(v) => event_message(v),
            ApiError::Ticket(t) => ticket_message(t),
            ApiError::Session(s) => session_message(s),
            ApiError::Gql(g) => gql_message(g),
            ApiError::Hash(_) => "Internal Server Error"@,
        }
    }
}

impl ApiError {
    /// The HTTP status the failure is reported with.
    pub fn status_code(&self) -> (r: u16)
        ensures
            r == status_of(*self),
    {
        match self {
            ApiError::Auth(a) => match a {
                AuthError::WrongCredentialsError => 403,
                AuthError::NoPermissionError => 401,
                AuthError::JWTTokenError => 401,
                AuthError::JWTTokenExpiredError => 401,
                AuthError::BadEncodedUserRole(_) => 401,
                AuthError::JWTTokenCreationError => 500,
                _ => 400,
            },
            ApiError::Hash(_) => 500,
            ApiError::UnparsableUuid(_) => 400,
            ApiError::User(_) => 403,
            ApiError::Event(_) => 403,
            ApiError::Ticket(_) => 403,
            ApiError::Session(_) => 403,
            ApiError::Gql(g) => match g {
                GqlError::UnexpectedInternal => 500,
                _ => 400,
            },
        }
    }

    /// The text the failure is reported with.
    pub fn public_message(&self) -> (r: String)
        ensures
            r@ == public_message_of(*self),
    {
        if self.status_code() == 500 {
            return String::from_str("Internal Server Error");
        }
        match self {
            ApiError::Auth(a) => a.message(),
            ApiError::UnparsableUuid(s) => s.clone(),
            ApiError::User(u) => u.message(),
            ApiError::Event(v) => v.message(),
            ApiError::Ticket(t) => t.message(),
            ApiError::Session(s) => s.message(),
            ApiError::Gql(g) => g.message(),
            ApiError::Hash(_) => String::from_str("Internal Server Error"),
        }
    }
}

} // verus!
