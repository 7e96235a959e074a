//! Closed enumerations of the data model and their integer and text forms.

use vstd::prelude::*;
use crate::error::{GqlError, UserError};
use crate::text::{i16_text, int_text, lowercase, lower_of, str_eq};

verus! {

/// A user role.
#[derive(Debug, Clone, Copy, PartialEq, Eq, Structural)]
pub enum Role {
    Admin,
    Seller,
    Buyer,
    SuperAdmin,
}

/// The integer a role is stored as.
pub open spec fn role_code(r: Role) -> i16 {
    match r {
        Role::Admin => 0,
        Role::Seller => 1,
        Role::Buyer => 2,
        Role::SuperAdmin => 4,
    }
}

/// The lower-case name of a role.
pub open spec fn role_name(r: Role) -> Seq<char> {
    match r {
        Role::Admin => seq!['a', 'd', 'm', 'i', 'n'],
        Role::Seller => seq!['s', 'e', 'l', 'l', 'e', 'r'],
        Role::Buyer => seq!['b', 'u', 'y', 'e', 'r'],
        Role::SuperAdmin => seq!['s', 'u', 'p', 'e', 'r', 'a', 'd', 'm', 'i', 'n'],
    }
}

/// The role whose name is exactly `s`, if any.
pub open spec fn role_of_name(s: Seq<char>) -> Option<Role> {
    if s == role_name(Role::Admin) {
        Some(Role::Admin)
    } else if s == role_name(Role::Seller) {
        Some(Role::Seller)
    } else if s == role_name(Role::Buyer) {
        Some(Role::Buyer)
    } else if s == role_name(Role::SuperAdmin) {
        Some(Role::SuperAdmin)
    } else {
        None
    }
}

/// The role a text names once lower-cased, if any.
pub open spec fn role_of_text(s: Seq<char>) -> Option<Role> {
    role_of_name(lower_of(s))
}

pub open spec fn role_of_code(n: i16) -> Option<Role> {
    if n == 0 {
        Some(Role::Admin)
    } else if n == 1 {
        Some(Role::Seller)
    } else if n == 2 {
        Some(Role::Buyer)
    } else if n == 4 {
        Some(Role::SuperAdmin)
    } else {
        None
    }
}

impl Role {
    /// The integer the role is stored as.
    pub fn to_i16(self) -> (r: i16)
        ensures
            r == role_code(self),
    {
        match self {
            Role::Admin => 0,
            Role::Seller => 1,
            Role::Buyer => 2,
            Role::SuperAdmin => 4,
        }
    }

    /// The role stored as `n`; any other integer is an unknown role.
    pub fn try_from_i16(n: i16) -> (r: Result<Role, UserError>)
        ensures
            role_of_code(n) matches Some(x) ==> r == Ok::<Role, UserError>(x),
            role_of_code(n) is None ==> (r matches Err(UserError::UnknownUserRole(t)) && t@ == int_text(n as int)),
    {
        match n {
            0 => Ok(Role::Admin),
            1 => Ok(Role::Seller),
            2 => Ok(Role::Buyer),
            4 => Ok(Role::SuperAdmin),
            _ => Err(UserError::UnknownUserRole(i16_text(n))),
        }
    }

    /// The lower-case name of the role.
    pub fn as_str(&self) -> (r: &'static str)
        ensures
            r@ == role_name(*self),
    {
        match self {
            Role::Admin => {
                proof { reveal_strlit("admin"); }
                "admin"
            },
            Role::Seller => {
                proof { reveal_strlit("seller"); }
                "seller"
            },
            Role::Buyer => {
                proof { reveal_strlit("buyer"); }
                "buyer"
            },
            Role::SuperAdmin => {
                proof { reveal_strlit("superadmin"); }
                "superadmin"
            },
        }
    }

    /// The role named by an already lower-cased text.
    pub fn from_lowercase_name(s: &str) -> (r: Option<Role>)
        ensures
            r == role_of_name(s@),
    {
        let roles = [Role::Admin, Role::Seller, Role::Buyer, Role::SuperAdmin];
        let mut i: usize = 0;
        while i < 4
            invariant
                0 <= i <= 4,
                roles@ == seq![Role::Admin, Role::Seller, Role::Buyer, Role::SuperAdmin],
                forall|j: int| 0 <= j < i ==> s@ != role_name(#[trigger] roles@[j]),
            decreases 4 - i,
        {
            let r = roles[i];
            if str_eq(s, r.as_str()) {
                return Some(r);
            }
            i = i + 1;
        }
        None
    }

    /// The role a text names, compared without regard to case.
    pub fn try_from_str(s: &str) -> (r: Result<Role, UserError>)
        ensures
            role_of_text(s@) matches Some(x) ==> r == Ok::<Role, UserError>(x),
            role_of_text(s@) is None ==> (r matches Err(UserError::UnknownUserRole(t)) && t@ == s@),
    {
        let lower = lowercase(s);
        match Role::from_lowercase_name(lower.as_str()) {
            Some(x) => Ok(x),
            None => Err(UserError::UnknownUserRole(String::from_str(s))),
        }
    }
}


/// A user status.
#[derive(Debug, Clone, Copy, PartialEq, Eq, Structural)]
pub enum UserStatus {
    Unverified,
    PhoneVerified,
}

pub open spec fn status_code(s: UserStatus) -> i16 {
    match s {
        UserStatus::Unverified => 0,
        UserStatus::PhoneVerified => 1,
    }
}

pub open spec fn status_name(s: UserStatus) -> Seq<char> {
    match s {
        UserStatus::Unverified => seq!['u', 'n', 'v', 'e', 'r', 'i', 'f', 'i', 'e', 'd'],
        UserStatus::PhoneVerified => seq![
            'p', 'h', 'o', 'n', 'e', '_', 'v', 'e', 'r', 'i', 'f', 'i', 'e', 'd'
        ],
    }
}

pub open spec fn status_of_name(s: Seq<char>) -> Option<UserStatus> {
    if s == status_name(UserStatus::Unverified) {
        Some(UserStatus::Unverified)
    } else if s == status_name(UserStatus::PhoneVerified) {
        Some(UserStatus::PhoneVerified)
    } else {
        None
    }
}

impl UserStatus {
    /// The integer the status is stored as.
    pub fn to_i16(self) -> (r: i16)
        ensures
            r == status_code(self),
    {
        match self {
            UserStatus::Unverified => 0,
            UserStatus::PhoneVerified => 1,
        }
    }

    /// The status stored as `n`; any other integer is an unknown status.
    pub fn try_from_i16(n: i16) -> (r: Result<UserStatus, UserError>)
        ensures
            n == 0 ==> r == Ok::<UserStatus, UserError>(UserStatus::Unverified),
            n == 1 ==> r == Ok::<UserStatus, UserError>(UserStatus::PhoneVerified),
            n != 0 && n != 1 ==> (r matches Err(UserError::UnknownUserStatus(t)) && t@ == int_text(n as int)),
    {
        match n {
            0 => Ok(UserStatus::Unverified),
            1 => Ok(UserStatus::PhoneVerified),
            _ => Err(UserError::UnknownUserStatus(i16_text(n))),
        }
    }

    /// The lower-case name of the status.
    pub fn as_str(&self) -> (r: &'static str)
        ensures
            r@ == status_name(*self),
    {
        match self {
            UserStatus::Unverified => {
                proof { reveal_strlit("unverified"); }
                "unverified"
            },
            UserStatus::PhoneVerified => {
                proof { reveal_strlit("phone_verified"); }
                "phone_verified"
            },
        }
    }

    /// The status a text names, compared without regard to case.
    pub fn try_from_str(s: &str) -> (r: Result<UserStatus, UserError>)
        ensures
            status_of_name(lower_of(s@)) matches Some(x) ==> r == Ok::<UserStatus, UserError>(x),
            status_of_name(lower_of(s@)) is None ==> (r matches Err(UserError::UnknownUserStatus(t))
                && t@ == s@),
    {
        let lower = lowercase(s);
        if str_eq(lower.as_str(), UserStatus::Unverified.as_str()) {
            Ok(UserStatus::Unverified)
        } else if str_eq(lower.as_str(), UserStatus::PhoneVerified.as_str()) {
            Ok(UserStatus::PhoneVerified)
        } else {
            Err(UserError::UnknownUserStatus(String::from_str(s)))
        }
    }
}

/// The publication status of an event.
#[derive(Debug, Clone, Copy, PartialEq, Eq, Structural)]
pub enum EventStatus {
    Draft,
    Minting,
    Final,
}

pub open spec fn event_status_name(s: EventStatus) -> Seq<char> {
    match s {
        EventStatus::Draft => seq!['d', 'r', 'a', 'f', 't'],
        EventStatus::Minting => seq!['m', 'i', 'n', 't', 'i', 'n', 'g'],
        EventStatus::Final => seq!['f', 'i', 'n', 'a', 'l'],
    }
}

/// The status a lower-cased text names; any other text stands for a draft.
pub open spec fn event_status_of_name(s: Seq<char>) -> EventStatus {
    if s == event_status_name(EventStatus::Minting) {
        EventStatus::Minting
    } else if s == event_status_name(EventStatus::Final) {
        EventStatus::Final
    } else {
        EventStatus::Draft
    }
}

impl EventStatus {
    /// The integer the status is stored as.
    pub fn to_i16(self) -> (r: i16)
        ensures
            r == (match self {
                EventStatus::Draft => 0i16,
                EventStatus::Minting => 1i16,
                EventStatus::Final => 2i16,
            }),
    {
        match self {
            EventStatus::Draft => 0,
            EventStatus::Minting => 1,
            EventStatus::Final => 2,
        }
    }

    /// The status stored as `n`; any other integer is an unknown status.
    pub fn try_from_i16(n: i16) -> (r: Result<EventStatus, GqlError>)
        ensures
            n == 0 ==> r == Ok::<EventStatus, GqlError>(EventStatus::Draft),
            n == 1 ==> r == Ok::<EventStatus, GqlError>(EventStatus::Minting),
            n == 2 ==> r == Ok::<EventStatus, GqlError>(EventStatus::Final),
            !(0 <= n <= 2) ==> (r matches Err(GqlError::UnknownEventStatus(t)) && t@ == int_text(n as int)),
    {
        match n {
            0 => Ok(EventStatus::Draft),
            1 => Ok(EventStatus::Minting),
            2 => Ok(EventStatus::Final),
            _ => Err(GqlError::UnknownEventStatus(i16_text(n))),
        }
    }

    /// The lower-case name of the status.
    pub fn as_str(&self) -> (r: &'static str)
        ensures
            r@ == event_status_name(*self),
    {
        match self {
            EventStatus::Draft => {
                proof { reveal_strlit("draft"); }
                "draft"
            },
            EventStatus::Minting => {
                proof { reveal_strlit("minting"); }
                "minting"
            },
            EventStatus::Final => {
                proof { reveal_strlit("final"); }
                "final"
            },
        }
    }

    /// The status a text names, compared without regard to case; unknown texts give a draft.
    pub fn from_str(status: &str) -> (r: EventStatus)
        ensures
            r == event_status_of_name(lower_of(status@)),
    {
        let lower = lowercase(status);
        if str_eq(lower.as_str(), EventStatus::Minting.as_str()) {
            EventStatus::Minting
        } else if str_eq(lower.as_str(), EventStatus::Final.as_str()) {
            EventStatus::Final
        } else {
            EventStatus::Draft
        }
    }
}

/// The environment the server runs in.
#[derive(Debug, Clone, Copy, PartialEq, Eq, Structural)]
pub enum ServerEnv {
    Dev,
    Release,
}

pub open spec fn release_name() -> Seq<char> {
    seq!['r', 'e', 'l', 'e', 'a', 's', 'e']
}

impl ServerEnv {
    /// `Release` for the text "release" in any case; `Dev` for anything else.
    pub fn from_str(env: &str) -> (r: ServerEnv)
        ensures
            r == (if lower_of(env@) == release_name() { ServerEnv::Release } else { ServerEnv::Dev }),
    {
        let lower = lowercase(env);
        proof {
            reveal_strlit("release");
            assert("release"@ =~= release_name());
        }
        if str_eq(lower.as_str(), "release") {
            ServerEnv::Release
        } else {
            ServerEnv::Dev
        }
    }
}

} // verus!
