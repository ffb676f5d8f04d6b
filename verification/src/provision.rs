//! Provisioning rules for tokens and invites: how many invites a fresh
//! token starts with, and who may issue a new invite.

use vstd::prelude::*;

use crate::tier::AuthTier;

verus! {

/// Length of a freshly issued bearer token.
pub const TOKEN_LENGTH: usize = 42;

/// Length of a freshly issued invite identifier.
pub const INVITE_LENGTH: usize = 32;

/// The invite counter a freshly issued token starts with: basic tokens get
/// none, trusted tokens two, and higher tiers carry no counter at all.
pub open spec fn spec_invite_allowance(tier: AuthTier) -> Option<i32> {
    match tier {
        AuthTier::Basic => Some(0),
        AuthTier::Trusted => Some(2),
        _ => None,
    }
}

/// Computes the invite counter a freshly issued token of this tier carries.
pub fn invite_allowance(tier: AuthTier) -> (r: Option<i32>)
    ensures
        r == spec_invite_allowance(tier),
{
    match tier {
        AuthTier::Basic => Some(0),
        AuthTier::Trusted => Some(2),
        _ => None,
    }
}

/// Who may issue an invite: admins always; trusted tokens while their
/// invite counter is positive; nobody else.
pub open spec fn spec_may_issue_invite(tier: AuthTier, invites_left: Option<i32>) -> bool {
    match tier {
        AuthTier::Admin => true,
        AuthTier::Trusted => match invites_left {
            Some(n) => n > 0,
            None => false,
        },
        _ => false,
    }
}

/// Decides whether a token may issue an invite now.
pub fn may_issue_invite(tier: AuthTier, invites_left: Option<i32>) -> (r: bool)
    ensures
        r == spec_may_issue_invite(tier, invites_left),
{
    match tier {
        AuthTier::Admin => true,
        AuthTier::Trusted => match invites_left {
            Some(n) => n > 0,
            None => false,
        },
        _ => false,
    }
}

} // verus!
