//! Permission levels of local accounts and their database codes.
use vstd::prelude::*;

verus! {

/// How much a local account may do on the instance.
#[derive(Debug, Clone, Copy, PartialEq, Eq, Structural)]
pub enum PermissionLevel {
    /// intended for the main admin account(s) of the server, will be
    /// featured and considered the point of contact for the instance,
    /// can be set to be auto followed by new users
    AdminOne,
    /// intended for anyone who has admin access to the server
    AdminTwo,
    /// intended for mods who can take veto action in an emergency
    ModOne,
    /// intended for mods who need to open a proposal for mod changes
    ModTwo,
    /// intended for public registration servers to limit things to only
    /// known users, for example to let only known users vote on proposals;
    /// when manual approval is used, approved users are trusted and pending
    /// users untrusted
    TrustedUser,
    /// the default, what they can do is up to server policy, used for
    /// accounts pending approval in a manual approval setup
    UntrustedUser,
}

/// The level stored under a database code; unknown codes are untrusted.
pub open spec fn permission_from_code(value: i16) -> PermissionLevel {
    if value == 1 {
        PermissionLevel::AdminOne
    } else if value == 2 {
        PermissionLevel::AdminTwo
    } else if value == 3 {
        PermissionLevel::ModOne
    } else if value == 4 {
        PermissionLevel::ModTwo
    } else if value == 5 {
        PermissionLevel::TrustedUser
    } else {
        PermissionLevel::UntrustedUser
    }
}

/// The database code of a level.
pub open spec fn permission_code(level: PermissionLevel) -> i16 {
    match level {
        PermissionLevel::AdminOne => 1,
        PermissionLevel::AdminTwo => 2,
        PermissionLevel::ModOne => 3,
        PermissionLevel::ModTwo => 4,
        PermissionLevel::TrustedUser => 5,
        PermissionLevel::UntrustedUser => 6,
    }
}

impl From<i16> for PermissionLevel {
    fn from(value: i16) -> (r: Self) {
        match value {
            1 => PermissionLevel::AdminOne,
            2 => PermissionLevel::AdminTwo,
            3 => PermissionLevel::ModOne,
            4 => PermissionLevel::ModTwo,
            5 => PermissionLevel::TrustedUser,
            6 => PermissionLevel::UntrustedUser,
            _ => PermissionLevel::UntrustedUser,
        }
    }
}

impl vstd::std_specs::convert::FromSpecImpl<i16> for PermissionLevel {
    open spec fn obeys_from_spec() -> bool {
        true
    }

    open spec fn from_spec(value: i16) -> Self {
        permission_from_code(value)
    }
}

impl From<PermissionLevel> for i16 {
    fn from(val: PermissionLevel) -> (r: Self) {
        match val {
            PermissionLevel::AdminOne => 1,
            PermissionLevel::AdminTwo => 2,
            PermissionLevel::ModOne => 3,
            PermissionLevel::ModTwo => 4,
            PermissionLevel::TrustedUser => 5,
            PermissionLevel::UntrustedUser => 6,
        }
    }
}

impl vstd::std_specs::convert::FromSpecImpl<PermissionLevel> for i16 {
    open spec fn obeys_from_spec() -> bool {
        true
    }

    open spec fn from_spec(val: PermissionLevel) -> Self {
        permission_code(val)
    }
}

/// Storing a level and reading it back gives the same level.
pub proof fn law_permission_round_trip(level: PermissionLevel)
    ensures
        permission_from_code(permission_code(level)) == level,
{
}

/// The codes 1 to 6 are exactly the stored levels; every other code reads
/// as an untrusted user.
pub proof fn law_permission_codes(value: i16)
    ensures
        1 <= value <= 6 ==> permission_code(permission_from_code(value)) == value,
        !(1 <= value <= 6) ==> permission_from_code(value) == PermissionLevel::UntrustedUser,
{
}

} // verus!
