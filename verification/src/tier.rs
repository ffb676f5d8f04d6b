//! Authorization tiers and the allocation policy each tier resolves to.

use vstd::prelude::*;

verus! {

/// Authorization level attached to every token, ordered by privilege,
/// lowest first.
#[derive(Clone, Copy, PartialEq, Eq, Structural, Debug)]
pub enum AuthTier {
    Guest,
    Basic,
    Trusted,
    Admin,
}

/// Length of a generated slug for an admin request without a chosen slug.
pub const ADMIN_MIN_LENGTH: usize = 4;

/// Minimum slug length enforced for trusted requests; shorter chosen slugs
/// are padded up to this length.
pub const TRUSTED_MIN_LENGTH: usize = 6;

/// Length of the generated slug for basic (and guest) requests.
pub const BASIC_MIN_LENGTH: usize = 8;

/// Per-request allocation policy, derived from the tier and never persisted.
#[derive(Clone, Copy, PartialEq, Eq, Structural, Debug)]
pub struct AllocationPolicy {
    /// Length of generated candidates, and the floor for adjusted chosen ones.
    pub min_length: usize,
    /// Whether a user-supplied slug is honoured at all.
    pub allow_user_choice: bool,
    /// Whether a colliding record is evicted no matter who owns it.
    pub force_evict_on_collision: bool,
    /// Whether a colliding record may be evicted when the requester owns it.
    pub evict_requires_ownership: bool,
}

/// The policy a tier resolves to: admins choose freely and evict
/// unconditionally at length 4; trusted users choose but evict only their
/// own records at length 6; everyone else gets generated 8-character slugs
/// and never evicts.
pub open spec fn spec_policy(tier: AuthTier) -> AllocationPolicy {
    match tier {
        AuthTier::Admin => AllocationPolicy {
            min_length: ADMIN_MIN_LENGTH,
            allow_user_choice: true,
            force_evict_on_collision: true,
            evict_requires_ownership: false,
        },
        AuthTier::Trusted => AllocationPolicy {
            min_length: TRUSTED_MIN_LENGTH,
            allow_user_choice: true,
            force_evict_on_collision: false,
            evict_requires_ownership: true,
        },
        _ => AllocationPolicy {
            min_length: BASIC_MIN_LENGTH,
            allow_user_choice: false,
            force_evict_on_collision: false,
            evict_requires_ownership: false,
        },
    }
}

/// The tier a stored authorization level denotes, highest level 3.
pub open spec fn spec_tier_of_level(level: i16) -> AuthTier {
    if level == 3 {
        AuthTier::Admin
    } else if level == 2 {
        AuthTier::Trusted
    } else if level == 1 {
        AuthTier::Basic
    } else {
        AuthTier::Guest
    }
}

/// Maps the authorization level stored with a token to its tier.
pub fn tier_of_level(level: i16) -> (t: AuthTier)
    ensures
        t == spec_tier_of_level(level),
{
    if level == 3 {
        AuthTier::Admin
    } else if level == 2 {
        AuthTier::Trusted
    } else if level == 1 {
        AuthTier::Basic
    } else {
        AuthTier::Guest
    }
}

/// Tier policy resolver: computes the allocation policy of a tier.
///
/// Higher trust is rewarded with shorter, freely chosen,
/// collision-overriding identifiers; lower trust gets longer,
/// collision-resistant, non-overridable random identifiers.
pub fn resolve(tier: AuthTier) -> (p: AllocationPolicy)
    ensures
        p == spec_policy(tier),
{
    match tier {
        AuthTier::Admin => AllocationPolicy {
            min_length: ADMIN_MIN_LENGTH,
            allow_user_choice: true,
            force_evict_on_collision: true,
            evict_requires_ownership: false,
        },
        AuthTier::Trusted => AllocationPolicy {
            min_length: TRUSTED_MIN_LENGTH,
            allow_user_choice: true,
            force_evict_on_collision: false,
            evict_requires_ownership: true,
        },
        _ => AllocationPolicy {
            min_length: BASIC_MIN_LENGTH,
            allow_user_choice: false,
            force_evict_on_collision: false,
            evict_requires_ownership: false,
        },
    }
}

} // verus!
