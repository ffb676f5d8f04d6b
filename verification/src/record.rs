//! Requests, stored records, errors, and their mathematical models.

use vstd::prelude::*;

use crate::tier::AuthTier;

verus! {

/// Mathematical model of a stored slug record.
pub ghost struct RecordModel {
    pub slug: Seq<char>,
    pub destination: Seq<char>,
    pub created: int,
    pub expiry: Option<int>,
    pub deleted: bool,
    pub owner_id: int,
}

/// A slug record as the datastore holds it. Among non-deleted records the
/// slug is globally unique; `created` is assigned by the datastore on
/// insert; `expiry` is advisory and checked at read time; `deleted` marks a
/// tombstone, which is retained rather than removed.
#[derive(Clone, Debug)]
pub struct SlugRecord {
    pub slug: String,
    pub destination: String,
    pub created: i64,
    pub expiry: Option<i64>,
    pub deleted: bool,
    pub owner_id: i64,
}

impl View for SlugRecord {
    type V = RecordModel;

    open spec fn view(&self) -> RecordModel {
        RecordModel {
            slug: self.slug@,
            destination: self.destination@,
            created: self.created as int,
            expiry: match self.expiry {
                Some(t) => Some(t as int),
                None => None,
            },
            deleted: self.deleted,
            owner_id: self.owner_id as int,
        }
    }
}

/// Mathematical model of an allocation request.
pub ghost struct RequestModel {
    pub desired_slug: Option<Seq<char>>,
    pub destination: Seq<char>,
    pub expiry: Option<int>,
    pub requester_tier: AuthTier,
    pub requester_id: int,
}

/// An allocation request: an optional user-chosen slug, the destination the
/// slug should redirect to, an advisory expiry, and the requester's tier
/// and identity.
#[derive(Clone, Debug)]
pub struct SlugRequest {
    pub desired_slug: Option<String>,
    pub destination: String,
    pub expiry: Option<i64>,
    pub requester_tier: AuthTier,
    pub requester_id: i64,
}

impl View for SlugRequest {
    type V = RequestModel;

    open spec fn view(&self) -> RequestModel {
        RequestModel {
            desired_slug: match self.desired_slug {
                Some(ref s) => Some(s@),
                None => None,
            },
            destination: self.destination@,
            expiry: match self.expiry {
                Some(t) => Some(t as int),
                None => None,
            },
            requester_tier: self.requester_tier,
            requester_id: self.requester_id as int,
        }
    }
}

/// How an allocation can fail.
#[derive(Clone, Copy, PartialEq, Eq, Structural, Debug)]
pub enum AllocationError {
    /// The candidate is unavailable and policy forbids eviction, or the
    /// retry budget is exhausted. Never silently substitutes a different
    /// slug for one the user explicitly chose.
    Conflict,
    /// A datastore failure other than a uniqueness violation. Surfaced
    /// immediately, never retried, and never masked as a conflict.
    InternalError,
}

/// Whether a record is valid at time `now`: it is not a tombstone and its
/// expiry, if set, lies in the future. Expiry is advisory and checked at
/// read time; no background sweep enforces it.
pub open spec fn spec_record_valid(m: RecordModel, now: int) -> bool {
    &&& !m.deleted
    &&& match m.expiry {
        Some(t) => now < t,
        None => true,
    }
}

/// Decides whether a record is valid at time `now`.
pub fn record_valid(rec: &SlugRecord, now: i64) -> (r: bool)
    ensures
        r == spec_record_valid(rec@, now as int),
{
    !rec.deleted && match rec.expiry {
        Some(t) => now < t,
        None => true,
    }
}

/// Whether the destination string is a syntactically valid absolute URL,
/// exactly as the url crate's parser decides it.
pub uninterp spec fn url_accepted(s: Seq<char>) -> bool;

/// Relies on url's `Url::parse`: a deterministic syntax check whose result
/// depends on the input string alone; it accepts exactly the absolute URLs
/// of the URL standard.
#[verifier::external_body]
pub(crate) fn destination_accepted(s: &String) -> (r: bool)
    ensures
        r == url_accepted(s@),
{
    url::Url::parse(s.as_str()).is_ok()
}

} // verus!
