//! The slug allocation engine: candidate preparation, occupancy checking,
//! tier-gated eviction, bounded retry, and the driver that runs the machine
//! against the in-memory datastore.
//!
//! The machine is a function from state and datastore reply to the next
//! datastore call or the finished outcome, so a caller that talks to an
//! external datastore can run the same verified decisions: perform the
//! action, hand the reply back, repeat.
//!
//! Known gap, by design: an eviction that has committed is never rolled
//! back. A caller that abandons a run between the eviction and the insert
//! leaves the slug's old record tombstoned with no replacement inserted.

use vstd::prelude::*;

use crate::ident::{generate, is_url_safe, is_url_safe_char, pad_to_length};
use crate::record::{
    destination_accepted, url_accepted, AllocationError, RecordModel, SlugRecord, SlugRequest,
    RequestModel,
};
use crate::store::{
    lemma_mark_deleted_absent, lemma_mark_deleted_free, lemma_occupant_live, live_record,
    mark_deleted, occupant_of, tombstoned, InsertOutcome, MemStore, Occupant,
};
use crate::tier::{resolve, spec_policy, AllocationPolicy, AuthTier};

verus! {

/// Retry budget: an allocation makes at most this many passes through the
/// occupancy check before giving up with a conflict, so a saturated
/// namespace bounds latency instead of hanging the request.
pub const MAX_ATTEMPTS: u8 = 5;

/// Which datastore reply the machine is waiting for.
#[derive(Clone, Copy, PartialEq, Eq, Structural, Debug)]
pub enum Phase {
    /// Waiting for the occupant lookup of the current candidate.
    CheckOccupancy,
    /// Waiting for the eviction of the candidate's current record.
    Evicting,
    /// Waiting for the insert of the candidate.
    Inserting,
    /// Waiting for the creation timestamp of the inserted record.
    ReadingCreated,
}

/// The datastore call the driver must make next.
#[derive(Debug)]
pub enum DbAction {
    /// Look up the current record of the slug, tombstoned or not.
    FindOccupant(String),
    /// Tombstone the live record of the slug.
    Evict(String),
    /// Insert a live record: slug, destination, expiry, owner.
    Insert(String, String, Option<i64>, i64),
    /// Read the creation timestamp the datastore assigned to the slug.
    ReadCreated(String),
}

/// The datastore's reply to the last action.
#[derive(Clone, Copy, Debug)]
pub enum DbEvent {
    /// Reply to an occupant lookup: the current occupant, if any.
    Occupant(Option<Occupant>),
    /// The occupant lookup failed in the datastore.
    OccupantFailed,
    /// Reply to an eviction: the record is tombstoned.
    Evicted,
    /// The eviction failed in the datastore.
    EvictFailed,
    /// Reply to an insert: the record is durably created.
    Inserted,
    /// The insert hit the uniqueness constraint: a concurrent writer won
    /// the slug between the occupancy check and the insert.
    InsertUniqueViolation,
    /// The insert failed for any other reason.
    InsertFailed,
    /// Reply to the timestamp read: the stored creation time.
    Created(i64),
    /// The timestamp read failed in the datastore.
    CreatedFailed,
}

/// The allocator's state between datastore calls.
#[derive(Debug)]
pub struct AllocState {
    /// Policy resolved from the requester's tier.
    pub policy: AllocationPolicy,
    /// Identity that will own the new record.
    pub requester_id: i64,
    /// Destination the slug will redirect to.
    pub destination: String,
    /// Advisory expiry carried into the record.
    pub expiry: Option<i64>,
    /// The slug currently tried.
    pub candidate: String,
    /// Whether the candidate is the user's explicit choice; a chosen
    /// candidate is never silently replaced by a random one.
    pub chosen: bool,
    /// Occupancy checks begun, counted against `MAX_ATTEMPTS`.
    pub attempts: u8,
    /// Which reply the machine waits for.
    pub phase: Phase,
}

impl AllocState {
    /// State invariant: the attempt counter is within budget, the policy
    /// asks for non-empty slugs, and a generated candidate has exactly the
    /// policy's length and a URL-safe alphabet.
    pub open spec fn wf(&self) -> bool {
        &&& 1 <= self.attempts <= MAX_ATTEMPTS
        &&& 1 <= self.policy.min_length
        &&& !self.chosen ==> self.candidate@.len() == self.policy.min_length && is_url_safe(
            self.candidate@,
        )
    }
}

/// Whether policy permits evicting a colliding record: eviction is forced,
/// or it is ownership-gated and the requester owns the record.
pub open spec fn evict_allowed(policy: AllocationPolicy, occupant_owner: int, requester: int) -> bool {
    policy.force_evict_on_collision || (policy.evict_requires_ownership && occupant_owner
        == requester)
}

/// The event answers the call the phase waits for.
pub open spec fn event_fits(phase: Phase, ev: DbEvent) -> bool {
    match phase {
        Phase::CheckOccupancy => ev is Occupant || ev is OccupantFailed,
        Phase::Evicting => ev is Evicted || ev is EvictFailed,
        Phase::Inserting => ev is Inserted || ev is InsertUniqueViolation || ev is InsertFailed,
        Phase::ReadingCreated => ev is Created || ev is CreatedFailed,
    }
}

/// The action a state's phase calls for, carrying the state's own data.
pub open spec fn action_fits(st: AllocState, a: DbAction) -> bool {
    match st.phase {
        Phase::CheckOccupancy => a matches DbAction::FindOccupant(s) && s@ == st.candidate@,
        Phase::Evicting => a matches DbAction::Evict(s) && s@ == st.candidate@,
        Phase::Inserting => a matches DbAction::Insert(s, d, e, o) && s@ == st.candidate@ && d@
            == st.destination@ && e == st.expiry && o == st.requester_id,
        Phase::ReadingCreated => a matches DbAction::ReadCreated(s) && s@ == st.candidate@,
    }
}

/// `st` with only its phase changed.
pub open spec fn with_phase(st: AllocState, p: Phase) -> AllocState {
    AllocState {
        policy: st.policy,
        requester_id: st.requester_id,
        destination: st.destination,
        expiry: st.expiry,
        candidate: st.candidate,
        chosen: st.chosen,
        attempts: st.attempts,
        phase: p,
    }
}

/// `st` back at the occupancy check with the same candidate and one more
/// attempt used.
pub open spec fn retry_same(st: AllocState) -> AllocState {
    AllocState {
        policy: st.policy,
        requester_id: st.requester_id,
        destination: st.destination,
        expiry: st.expiry,
        candidate: st.candidate,
        chosen: st.chosen,
        attempts: (st.attempts + 1) as u8,
        phase: Phase::CheckOccupancy,
    }
}

/// `s2` is `st` back at the occupancy check with a freshly generated
/// candidate of the policy's length and one more attempt used. The content
/// of the fresh candidate is the one thing a step leaves open.
pub open spec fn regenerated(st: AllocState, s2: AllocState) -> bool {
    &&& s2.policy == st.policy
    &&& s2.requester_id == st.requester_id
    &&& s2.destination == st.destination
    &&& s2.expiry == st.expiry
    &&& s2.chosen == st.chosen
    &&& s2.candidate@.len() == st.policy.min_length
    &&& is_url_safe(s2.candidate@)
    &&& s2.attempts == st.attempts + 1
    &&& s2.phase == Phase::CheckOccupancy
}

/// The step ended the allocation in a conflict.
pub open spec fn finished_conflict(r: StepResult) -> bool {
    r matches StepResult::Finished(Err(AllocationError::Conflict))
}

/// The step ended the allocation in an internal error.
pub open spec fn finished_internal(r: StepResult) -> bool {
    r matches StepResult::Finished(Err(AllocationError::InternalError))
}

/// The record a successful insert of this state's candidate creates, with
/// the datastore-assigned creation time.
pub open spec fn state_record_model(st: AllocState, created: int) -> RecordModel {
    RecordModel {
        slug: st.candidate@,
        destination: st.destination@,
        created,
        expiry: match st.expiry {
            Some(t) => Some(t as int),
            None => None,
        },
        deleted: false,
        owner_id: st.requester_id as int,
    }
}

/// What a step yields: the next datastore call, or the finished allocation.
#[derive(Debug)]
pub enum StepResult {
    /// Perform the action against the datastore and hand the reply back.
    Continue(AllocState, DbAction),
    /// The allocation is over: the reserved record, or why it failed.
    Finished(Result<SlugRecord, AllocationError>),
}

/// The transition relation of one step of the allocation machine.
///
/// - A free candidate is inserted.
/// - A collision is evicted when policy permits; otherwise a chosen
///   candidate ends in a conflict at once — never a silent substitute —
///   and a generated one is retried with a fresh random candidate while
///   budget remains, else ends in a conflict.
/// - A uniqueness violation on insert is a fresh collision: the same
///   candidate re-enters the occupancy check, still counted against the
///   budget.
/// - An eviction or insert that went through moves on to the next call; a
///   successful timestamp read finishes with the reserved record.
/// - Any other datastore failure ends in an internal error at once.
pub open spec fn step_post(st: AllocState, ev: DbEvent, r: StepResult) -> bool {
    match ev {
        DbEvent::Occupant(found) => match found {
            None => r matches StepResult::Continue(s2, a) && s2 == with_phase(
                st,
                Phase::Inserting,
            ) && action_fits(s2, a),
            Some(occ) => {
                if evict_allowed(st.policy, occ.owner_id as int, st.requester_id as int) {
                    r matches StepResult::Continue(s2, a) && s2 == with_phase(st, Phase::Evicting)
                        && action_fits(s2, a)
                } else if st.chosen {
                    finished_conflict(r)
                } else if st.attempts >= MAX_ATTEMPTS {
                    finished_conflict(r)
                } else {
                    r matches StepResult::Continue(s2, a) && regenerated(st, s2) && action_fits(
                        s2,
                        a,
                    )
                }
            },
        },
        DbEvent::OccupantFailed => finished_internal(r),
        DbEvent::Evicted => r matches StepResult::Continue(s2, a) && s2 == with_phase(
            st,
            Phase::Inserting,
        ) && action_fits(s2, a),
        DbEvent::EvictFailed => finished_internal(r),
        DbEvent::Inserted => r matches StepResult::Continue(s2, a) && s2 == with_phase(
            st,
            Phase::ReadingCreated,
        ) && action_fits(s2, a),
        DbEvent::InsertUniqueViolation => {
            if st.attempts >= MAX_ATTEMPTS {
                finished_conflict(r)
            } else {
                r matches StepResult::Continue(s2, a) && s2 == retry_same(st) && action_fits(s2, a)
            }
        },
        DbEvent::InsertFailed => finished_internal(r),
        DbEvent::Created(t) => r matches StepResult::Finished(res) && res matches Ok(rec) && rec@
            == state_record_model(st, t as int),
        DbEvent::CreatedFailed => finished_internal(r),
    }
}

/// Moves `st` to the inserting phase with its insert action.
fn to_inserting(st: AllocState) -> (r: StepResult)
    ensures
        r matches StepResult::Continue(s2, a) && s2 == with_phase(st, Phase::Inserting)
            && action_fits(s2, a),
{
    let a = DbAction::Insert(
        st.candidate.clone(),
        st.destination.clone(),
        st.expiry,
        st.requester_id,
    );
    StepResult::Continue(
        AllocState {
            policy: st.policy,
            requester_id: st.requester_id,
            destination: st.destination,
            expiry: st.expiry,
            candidate: st.candidate,
            chosen: st.chosen,
            attempts: st.attempts,
            phase: Phase::Inserting,
        },
        a,
    )
}

/// One transition of the allocation state machine: consume the datastore's
/// reply and yield either the next datastore call or the finished outcome.
pub fn step(st: AllocState, ev: DbEvent) -> (r: StepResult)
    requires
        st.wf(),
        event_fits(st.phase, ev),
    ensures
        step_post(st, ev, r),
        r matches StepResult::Continue(s2, a) ==> s2.wf(),
{
    match ev {
        DbEvent::Occupant(found) => match found {
            None => to_inserting(st),
            Some(occ) => {
                let allowed = st.policy.force_evict_on_collision || (
                st.policy.evict_requires_ownership && occ.owner_id == st.requester_id);
                if allowed {
                    let slug = st.candidate.clone();
                    StepResult::Continue(
                        AllocState {
                            policy: st.policy,
                            requester_id: st.requester_id,
                            destination: st.destination,
                            expiry: st.expiry,
                            candidate: st.candidate,
                            chosen: st.chosen,
                            attempts: st.attempts,
                            phase: Phase::Evicting,
                        },
                        DbAction::Evict(slug),
                    )
                } else if st.chosen {
                    StepResult::Finished(Err(AllocationError::Conflict))
                } else if st.attempts >= MAX_ATTEMPTS {
                    StepResult::Finished(Err(AllocationError::Conflict))
                } else {
                    let fresh = generate(st.policy.min_length);
                    let slug = fresh.clone();
                    StepResult::Continue(
                        AllocState {
                            policy: st.policy,
                            requester_id: st.requester_id,
                            destination: st.destination,
                            expiry: st.expiry,
                            candidate: fresh,
                            chosen: st.chosen,
                            attempts: st.attempts + 1,
                            phase: Phase::CheckOccupancy,
                        },
                        DbAction::FindOccupant(slug),
                    )
                }
            },
        },
        DbEvent::OccupantFailed => StepResult::Finished(Err(AllocationError::InternalError)),
        DbEvent::Evicted => to_inserting(st),
        DbEvent::EvictFailed => StepResult::Finished(Err(AllocationError::InternalError)),
        DbEvent::Inserted => {
            let slug = st.candidate.clone();
            StepResult::Continue(
                AllocState {
                    policy: st.policy,
                    requester_id: st.requester_id,
                    destination: st.destination,
                    expiry: st.expiry,
                    candidate: st.candidate,
                    chosen: st.chosen,
                    attempts: st.attempts,
                    phase: Phase::ReadingCreated,
                },
                DbAction::ReadCreated(slug),
            )
        },
        DbEvent::InsertUniqueViolation => {
            if st.attempts >= MAX_ATTEMPTS {
                StepResult::Finished(Err(AllocationError::Conflict))
            } else {
                let slug = st.candidate.clone();
                StepResult::Continue(
                    AllocState {
                        policy: st.policy,
                        requester_id: st.requester_id,
                        destination: st.destination,
                        expiry: st.expiry,
                        candidate: st.candidate,
                        chosen: st.chosen,
                        attempts: st.attempts + 1,
                        phase: Phase::CheckOccupancy,
                    },
                    DbAction::FindOccupant(slug),
                )
            }
        },
        DbEvent::InsertFailed => StepResult::Finished(Err(AllocationError::InternalError)),
        DbEvent::Created(t) => StepResult::Finished(
            Ok(
                SlugRecord {
                    slug: st.candidate,
                    destination: st.destination,
                    created: t,
                    expiry: st.expiry,
                    deleted: false,
                    owner_id: st.requester_id,
                },
            ),
        ),
        DbEvent::CreatedFailed => StepResult::Finished(Err(AllocationError::InternalError)),
    }
}

/// The first candidate a request gets: the user's choice where the tier
/// honours one — taken as given for admins, padded up to the minimum
/// length for trusted users, still a deliberate choice — and a fresh
/// random slug of the tier's length otherwise.
pub open spec fn initial_candidate(req: RequestModel, st: AllocState) -> bool {
    let policy = spec_policy(req.requester_tier);
    match req.desired_slug {
        Some(s) => {
            if policy.allow_user_choice {
                if s.len() >= policy.min_length || req.requester_tier is Admin {
                    st.chosen && st.candidate@ == s
                } else {
                    &&& st.chosen
                    &&& st.candidate@.len() == policy.min_length
                    &&& st.candidate@.subrange(0, s.len() as int) == s
                    &&& forall|i: int|
                        s.len() <= i < policy.min_length ==> is_url_safe_char(
                            #[trigger] st.candidate@[i],
                        )
                }
            } else {
                &&& !st.chosen
                &&& st.candidate@.len() == policy.min_length
                &&& is_url_safe(st.candidate@)
            }
        },
        None => {
            &&& !st.chosen
            &&& st.candidate@.len() == policy.min_length
            &&& is_url_safe(st.candidate@)
        },
    }
}

/// Begin an allocation: resolve the tier's policy, prepare the first
/// candidate, and ask for its occupancy.
pub fn start(request: &SlugRequest) -> (r: (AllocState, DbAction))
    ensures
        r.0.wf(),
        r.0.phase == Phase::CheckOccupancy,
        r.0.attempts == 1,
        r.0.policy == spec_policy(request@.requester_tier),
        r.0.requester_id == request.requester_id,
        r.0.destination@ == request@.destination,
        r.0.expiry == request.expiry,
        r.0.chosen <==> (spec_policy(request@.requester_tier).allow_user_choice
            && request@.desired_slug is Some),
        initial_candidate(request@, r.0),
        action_fits(r.0, r.1),
{
    let policy = resolve(request.requester_tier);
    let (candidate, chosen): (String, bool) = if policy.allow_user_choice {
        match &request.desired_slug {
            Some(s) => {
                let n = s.as_str().unicode_len();
                if n >= policy.min_length {
                    (s.clone(), true)
                } else if request.requester_tier == AuthTier::Admin {
                    (s.clone(), true)
                } else {
                    (pad_to_length(s, policy.min_length), true)
                }
            },
            None => (generate(policy.min_length), false),
        }
    } else {
        (generate(policy.min_length), false)
    };
    let slug = candidate.clone();
    let st = AllocState {
        policy,
        requester_id: request.requester_id,
        destination: request.destination.clone(),
        expiry: request.expiry,
        candidate,
        chosen,
        attempts: 1,
        phase: Phase::CheckOccupancy,
    };
    (st, DbAction::FindOccupant(slug))
}

/// A chosen slug is never silently replaced: every continuing transition
/// keeps a chosen state's candidate, and a collision the policy may not
/// evict ends a chosen allocation in a conflict rather than falling back
/// to a random alternative.
pub proof fn lemma_chosen_slug_kept(st: AllocState, ev: DbEvent, r: StepResult)
    requires
        st.chosen,
        step_post(st, ev, r),
    ensures
        r matches StepResult::Continue(s2, _) ==> s2.chosen && s2.candidate@ == st.candidate@,
        ev matches DbEvent::Occupant(Some(occ)) && !evict_allowed(
            st.policy,
            occ.owner_id as int,
            st.requester_id as int,
        ) ==> finished_conflict(r),
{
}

/// A uniqueness violation on insert is contention, not failure: within
/// budget the same candidate re-enters the occupancy check with one more
/// attempt used, past the budget the allocation ends in a conflict, and in
/// neither case does it surface as an internal error.
pub proof fn lemma_unique_violation_absorbed(st: AllocState, r: StepResult)
    requires
        step_post(st, DbEvent::InsertUniqueViolation, r),
    ensures
        st.attempts < MAX_ATTEMPTS ==> (r matches StepResult::Continue(s2, a) && s2.phase
            == Phase::CheckOccupancy && s2.attempts == st.attempts + 1 && s2.candidate@
            == st.candidate@ && a matches DbAction::FindOccupant(_)),
        st.attempts >= MAX_ATTEMPTS ==> finished_conflict(r),
        !finished_internal(r),
{
}

/// A collision the policy may not evict never leads towards an insert: the
/// machine either asks for a fresh occupancy check, consuming one of the
/// five attempts, or — for a chosen candidate or an exhausted budget —
/// ends in a conflict. Five such collisions in a row therefore end in a
/// conflict with no insert ever issued.
pub proof fn lemma_denied_collision_conflicts(st: AllocState, occ: Occupant, r: StepResult)
    requires
        step_post(st, DbEvent::Occupant(Some(occ)), r),
        !evict_allowed(st.policy, occ.owner_id as int, st.requester_id as int),
    ensures
        r matches StepResult::Continue(s2, a) ==> s2.phase == Phase::CheckOccupancy && s2.attempts
            == st.attempts + 1 && a matches DbAction::FindOccupant(_),
        st.chosen || st.attempts >= MAX_ATTEMPTS ==> finished_conflict(r),
        r matches StepResult::Finished(res) ==> res == Err::<SlugRecord, AllocationError>(
            AllocationError::Conflict,
        ),
{
}

/// Attempt counting along a chain of denied collisions: each continuing
/// step uses up exactly one attempt.
proof fn lemma_denied_chain_attempts(
    sts: Seq<AllocState>,
    occs: Seq<Occupant>,
    rs: Seq<StepResult>,
    n: int,
    i: int,
)
    requires
        sts.len() == n,
        occs.len() == n,
        rs.len() == n,
        0 <= i < n,
        sts[0].attempts == 1,
        forall|j: int|
            0 <= j < n ==> #[trigger] step_post(sts[j], DbEvent::Occupant(Some(occs[j])), rs[j]),
        forall|j: int|
            0 <= j < n ==> !evict_allowed(
                sts[j].policy,
                #[trigger] occs[j].owner_id as int,
                sts[j].requester_id as int,
            ),
        forall|j: int|
            0 <= j < n - 1 ==> (#[trigger] rs[j] matches StepResult::Continue(s2, _)
                && s2 == sts[j + 1]),
    ensures
        sts[i].attempts == i + 1,
    decreases i,
{
    if i > 0 {
        lemma_denied_chain_attempts(sts, occs, rs, n, i - 1);
        assert(rs[i - 1] matches StepResult::Continue(s2, _) && s2 == sts[i]);
        assert(step_post(sts[i - 1], DbEvent::Occupant(Some(occs[i - 1])), rs[i - 1]));
    }
}

/// Exhausting the retry budget: along any chain of steps in which every
/// occupancy reply reports an occupant the policy may not evict, each
/// reply uses up one of the five attempts, no step ever asks for an
/// eviction or an insert, and such a chain cannot outlive the budget: by
/// the fifth reply at the latest the allocation has finished in a
/// conflict.
pub proof fn lemma_denied_collisions_exhaust_budget(
    sts: Seq<AllocState>,
    occs: Seq<Occupant>,
    rs: Seq<StepResult>,
    n: int,
)
    requires
        1 <= n,
        sts.len() == n,
        occs.len() == n,
        rs.len() == n,
        sts[0].attempts == 1,
        forall|j: int|
            0 <= j < n ==> #[trigger] step_post(sts[j], DbEvent::Occupant(Some(occs[j])), rs[j]),
        forall|j: int|
            0 <= j < n ==> !evict_allowed(
                sts[j].policy,
                #[trigger] occs[j].owner_id as int,
                sts[j].requester_id as int,
            ),
        forall|j: int|
            0 <= j < n - 1 ==> (#[trigger] rs[j] matches StepResult::Continue(s2, _)
                && s2 == sts[j + 1]),
    ensures
        forall|i: int| 0 <= i < n ==> #[trigger] sts[i].attempts == i + 1,
        n <= MAX_ATTEMPTS,
        n == MAX_ATTEMPTS ==> finished_conflict(rs[n - 1]),
        forall|i: int|
            0 <= i < n ==> !(#[trigger] rs[i] matches StepResult::Continue(_, a) && (a is Insert
                || a is Evict)),
{
    assert forall|i: int| 0 <= i < n implies #[trigger] sts[i].attempts == i + 1 by {
        lemma_denied_chain_attempts(sts, occs, rs, n, i);
    }
    if n > MAX_ATTEMPTS {
        // A sixth reply cannot exist: the step that would lead to it
        // already had the whole budget spent and finished in a conflict.
        let m = MAX_ATTEMPTS as int;
        assert(sts[m - 1].attempts == MAX_ATTEMPTS);
        assert(step_post(sts[m - 1], DbEvent::Occupant(Some(occs[m - 1])), rs[m - 1]));
        assert(!evict_allowed(
            sts[m - 1].policy,
            occs[m - 1].owner_id as int,
            sts[m - 1].requester_id as int,
        ));
        assert(rs[m - 1] matches StepResult::Continue(s2, _) && s2 == sts[m]);
        assert(false);
    }
    if n == MAX_ATTEMPTS {
        assert(sts[n - 1].attempts == MAX_ATTEMPTS);
        assert(step_post(sts[n - 1], DbEvent::Occupant(Some(occs[n - 1])), rs[n - 1]));
        assert(!evict_allowed(
            sts[n - 1].policy,
            occs[n - 1].owner_id as int,
            sts[n - 1].requester_id as int,
        ));
    }
    assert forall|i: int|
        0 <= i < n implies !(#[trigger] rs[i] matches StepResult::Continue(_, a) && (a is Insert
        || a is Evict)) by {
        assert(step_post(sts[i], DbEvent::Occupant(Some(occs[i])), rs[i]));
        assert(!evict_allowed(sts[i].policy, occs[i].owner_id as int, sts[i].requester_id as int));
        if let StepResult::Continue(s2, a) = rs[i] {
            // A continuing step after a denied collision regenerated, so
            // its next call is another occupancy check.
            assert(s2.phase == Phase::CheckOccupancy);
            assert(action_fits(s2, a));
        }
    }
}

/// Order of the phases within one attempt, used to show the driver's loop
/// makes progress.
pub open spec fn phase_rank(p: Phase) -> int {
    match p {
        Phase::CheckOccupancy => 3,
        Phase::Evicting => 2,
        Phase::Inserting => 1,
        Phase::ReadingCreated => 0,
    }
}

/// The slug a chosen allocation works with, as the request determines it:
/// the desired slug itself, or — for a trusted choice under the minimum —
/// the desired slug padded up to the minimum length with URL-safe
/// characters.
pub open spec fn chosen_candidate_matches(req: RequestModel, cand: Seq<char>) -> bool {
    let policy = spec_policy(req.requester_tier);
    match req.desired_slug {
        Some(s) => {
            if s.len() >= policy.min_length || req.requester_tier is Admin {
                cand == s
            } else {
                &&& cand.len() == policy.min_length
                &&& cand.subrange(0, s.len() as int) == s
                &&& forall|i: int|
                    s.len() <= i < cand.len() ==> is_url_safe_char(#[trigger] cand[i])
            }
        },
        None => false,
    }
}

/// What allocation against the in-memory store guarantees, relating the
/// store before (`pre`, with its clock) and after (`post`) to the outcome.
///
/// - A failure is always a conflict — the in-memory store never raises an
///   infrastructure error — and leaves the store untouched: no insert, no
///   eviction.
/// - A success appends exactly one live record, owned by the requester,
///   carrying the request's destination and expiry and the store's clock;
///   the only other change is the tombstoning of the slug's prior live
///   record, and such an eviction only ever happens forced by policy or
///   against the requester's own record.
/// - Without an honoured choice the reserved slug is freshly generated:
///   exactly the tier's length, URL-safe.
/// - An honoured choice is never substituted: the reserved slug is the
///   chosen one (padded for a short trusted choice), a refused exact choice
///   means its occupant could not be evicted, and an admin's choice always
///   succeeds.
/// - A failure is never gratuitous. Without an honoured choice it means
///   some URL-safe slug of the tier's exact length is occupied — so on a
///   store that blocks nothing, an empty one say, the allocation is owed
///   success. A refused padded choice likewise names an occupied slug of
///   the tier's length carrying the chosen prefix.
pub open spec fn allocate_post(
    pre: Seq<RecordModel>,
    pre_clock: int,
    post: Seq<RecordModel>,
    req: RequestModel,
    r: Result<SlugRecord, AllocationError>,
) -> bool {
    let policy = spec_policy(req.requester_tier);
    &&& match r {
        Err(e) => e == AllocationError::Conflict && post == pre,
        Ok(rec) => {
            &&& rec@.owner_id == req.requester_id
            &&& rec@.destination == req.destination
            &&& rec@.expiry == req.expiry
            &&& !rec@.deleted
            &&& rec@.created == pre_clock
            &&& post == mark_deleted(pre, rec@.slug).push(rec@)
            &&& (live_record(pre, rec@.slug) matches Some(prior)
                ==> policy.force_evict_on_collision || prior.owner_id == req.requester_id)
            &&& (occupant_of(pre, rec@.slug) matches Some(m) ==> evict_allowed(
                policy,
                m.owner_id,
                req.requester_id,
            ))
            &&& (!(policy.allow_user_choice && req.desired_slug is Some) ==> rec@.slug.len()
                == policy.min_length && is_url_safe(rec@.slug))
            &&& (policy.allow_user_choice && req.desired_slug is Some ==> chosen_candidate_matches(
                req,
                rec@.slug,
            ))
        },
    }
    &&& (req.desired_slug matches Some(s) ==> ((policy.allow_user_choice && (s.len()
        >= policy.min_length || req.requester_tier is Admin)) ==> (r is Err ==> (occupant_of(
        pre,
        s,
    ) matches Some(m) && !evict_allowed(policy, m.owner_id, req.requester_id)))))
    &&& (req.requester_tier is Admin && req.desired_slug is Some ==> r is Ok)
    &&& (!(policy.allow_user_choice && req.desired_slug is Some) && r is Err
        ==> (exists|c: Seq<char>|
            c.len() == policy.min_length && is_url_safe(c) && #[trigger] occupant_of(
                pre,
                c,
            ) is Some))
    &&& (req.desired_slug matches Some(s) ==> ((policy.allow_user_choice && s.len()
        < policy.min_length && !(req.requester_tier is Admin) && r is Err)
        ==> (exists|c: Seq<char>|
            c.len() == policy.min_length && c.subrange(0, s.len() as int) == s
                && #[trigger] occupant_of(pre, c) is Some)))
}

/// Every successful allocation meets its tier's minimum slug length. The
/// one exception is an admin's explicitly chosen slug, which is taken as
/// given however short it is; such requests are excluded here.
pub proof fn lemma_success_meets_minimum_length(
    pre: Seq<RecordModel>,
    pre_clock: int,
    post: Seq<RecordModel>,
    req: RequestModel,
    r: Result<SlugRecord, AllocationError>,
)
    requires
        allocate_post(pre, pre_clock, post, req, r),
        req.requester_tier is Admin ==> (match req.desired_slug {
            Some(s) => s.len() >= spec_policy(req.requester_tier).min_length,
            None => true,
        }),
    ensures
        r matches Ok(rec) ==> rec@.slug.len() >= spec_policy(req.requester_tier).min_length,
{
}

/// An admin's requested slug always wins a collision: the allocation
/// succeeds with exactly that slug under the admin's identity, the slug's
/// prior live record — whoever owned it — is tombstoned in place, and the
/// new live record is appended after everything else.
pub proof fn lemma_admin_choice_wins(
    pre: Seq<RecordModel>,
    pre_clock: int,
    post: Seq<RecordModel>,
    req: RequestModel,
    r: Result<SlugRecord, AllocationError>,
)
    requires
        allocate_post(pre, pre_clock, post, req, r),
        req.requester_tier is Admin,
        req.desired_slug is Some,
    ensures
        r is Ok,
        r matches Ok(rec) ==> ({
            &&& rec@.slug == req.desired_slug.unwrap()
            &&& rec@.owner_id == req.requester_id
            &&& !rec@.deleted
            &&& post.len() == pre.len() + 1
            &&& post.last() == rec@
            &&& forall|k: int|
                0 <= k < pre.len() && pre[k].slug == rec@.slug && !pre[k].deleted
                    ==> #[trigger] post[k] == tombstoned(pre[k])
            &&& forall|k: int|
                0 <= k < pre.len() && !(pre[k].slug == rec@.slug && !pre[k].deleted)
                    ==> #[trigger] post[k] == pre[k]
        }),
{
}

/// A trusted user's exact choice evicts and replaces only their own
/// record: colliding with their own record, the allocation succeeds with
/// that very slug; colliding with a record held by anyone else — live or
/// tombstoned — it is a conflict that changes nothing, never a silently
/// generated alternative.
pub proof fn lemma_trusted_choice_ownership(
    pre: Seq<RecordModel>,
    pre_clock: int,
    post: Seq<RecordModel>,
    req: RequestModel,
    r: Result<SlugRecord, AllocationError>,
)
    requires
        allocate_post(pre, pre_clock, post, req, r),
        req.requester_tier is Trusted,
        req.desired_slug matches Some(s) && s.len() >= spec_policy(req.requester_tier).min_length,
    ensures
        (occupant_of(pre, req.desired_slug.unwrap()) matches Some(m) && m.owner_id
            != req.requester_id) ==> (r == Err::<SlugRecord, AllocationError>(
            AllocationError::Conflict,
        ) && post == pre),
        (occupant_of(pre, req.desired_slug.unwrap()) matches Some(m) && m.owner_id
            == req.requester_id) ==> r is Ok,
        occupant_of(pre, req.desired_slug.unwrap()) is None ==> r is Ok,
        r matches Ok(rec) ==> rec@.slug == req.desired_slug.unwrap() && rec@.owner_id
            == req.requester_id,
{
}

/// Slug allocator: runs the allocation state machine against the in-memory
/// datastore. Within one allocation the datastore calls are strictly
/// sequential; the store's uniqueness constraint on live slugs is the sole
/// arbiter between concurrent allocations.
#[verifier::loop_isolation(false)]
pub fn allocate(store: &mut MemStore, request: &SlugRequest) -> (r: Result<
    SlugRecord,
    AllocationError,
>)
    requires
        old(store).wf(),
        url_accepted(request@.destination),
    ensures
        final(store).wf(),
        allocate_post(old(store)@, old(store).spec_clock(), final(store)@, request@, r),
{
    let ghost pre = old(store)@;
    let ghost pre_clock = old(store).spec_clock();
    let (st0, a0) = start(request);
    let mut st = st0;
    let mut action = a0;
    loop
        invariant
            store.wf(),
            st.wf(),
            action_fits(st, action),
            st.policy == spec_policy(request@.requester_tier),
            st.requester_id == request.requester_id,
            st.destination@ == request@.destination,
            st.expiry == request.expiry,
            (st.chosen <==> (spec_policy(request@.requester_tier).allow_user_choice
                && request@.desired_slug is Some)),
            st.chosen ==> chosen_candidate_matches(request@, st.candidate@),
            (st.phase == Phase::CheckOccupancy || st.phase == Phase::Evicting) ==> (store@ == pre
                && store.spec_clock() == pre_clock),
            st.phase == Phase::Evicting ==> (occupant_of(pre, st.candidate@) matches Some(m)
                && evict_allowed(st.policy, m.owner_id, st.requester_id as int)),
            st.phase == Phase::Inserting ==> ({
                &&& store@ == mark_deleted(pre, st.candidate@)
                &&& store.spec_clock() == pre_clock
                &&& live_record(store@, st.candidate@) is None
                &&& (live_record(pre, st.candidate@) matches Some(m) ==> evict_allowed(
                    st.policy,
                    m.owner_id,
                    st.requester_id as int,
                ))
                &&& (occupant_of(pre, st.candidate@) matches Some(m) ==> evict_allowed(
                    st.policy,
                    m.owner_id,
                    st.requester_id as int,
                ))
            }),
            st.phase == Phase::ReadingCreated ==> ({
                &&& store@ == mark_deleted(pre, st.candidate@).push(
                    state_record_model(st, pre_clock),
                )
                &&& live_record(store@, st.candidate@) == Some(state_record_model(st, pre_clock))
                &&& (live_record(pre, st.candidate@) matches Some(m) ==> evict_allowed(
                    st.policy,
                    m.owner_id,
                    st.requester_id as int,
                ))
                &&& (occupant_of(pre, st.candidate@) matches Some(m) ==> evict_allowed(
                    st.policy,
                    m.owner_id,
                    st.requester_id as int,
                ))
            }),
        decreases MAX_ATTEMPTS - st.attempts, phase_rank(st.phase),
    {
        let ev: DbEvent = match &action {
            DbAction::FindOccupant(slug) => DbEvent::Occupant(store.find_occupant(slug)),
            DbAction::Evict(slug) => {
                let _evicted = store.evict(slug);
                DbEvent::Evicted
            },
            DbAction::Insert(slug, dest, expiry, owner) => {
                match store.insert(slug, dest, *expiry, *owner) {
                    InsertOutcome::Inserted => DbEvent::Inserted,
                    InsertOutcome::UniqueViolation => DbEvent::InsertUniqueViolation,
                }
            },
            DbAction::ReadCreated(slug) => {
                match store.read_created(slug) {
                    Some(t) => DbEvent::Created(t),
                    None => DbEvent::CreatedFailed,
                }
            },
        };
        let ghost prior_st = st;
        match step(st, ev) {
            StepResult::Continue(s2, a2) => {
                proof {
                    match ev {
                        DbEvent::Occupant(found) => {
                            if found is None {
                                lemma_occupant_live(pre, prior_st.candidate@);
                                lemma_mark_deleted_absent(pre, prior_st.candidate@);
                            }
                        },
                        DbEvent::Evicted => {
                            lemma_mark_deleted_free(pre, prior_st.candidate@);
                            lemma_occupant_live(pre, prior_st.candidate@);
                        },
                        DbEvent::Inserted => {
                            assert(store@.last() == state_record_model(s2, pre_clock));
                            assert(live_record(store@, s2.candidate@) == Some(
                                state_record_model(s2, pre_clock),
                            ));
                        },
                        _ => {},
                    }
                }
                st = s2;
                action = a2;
            },
            StepResult::Finished(res) => {
                proof {
                    if let DbEvent::Created(t) = ev {
                        assert(res matches Ok(rec) && rec@ == state_record_model(
                            prior_st,
                            pre_clock,
                        ));
                    }
                    if let DbEvent::Occupant(found) = ev {
                        if found is Some {
                            // A conflict names its obstacle: the candidate
                            // just refused is the occupied slug the failure
                            // clauses of the contract ask for.
                            assert(occupant_of(pre, prior_st.candidate@) is Some);
                        }
                    }
                }
                return res;
            },
        }
    }
}

/// Allocation with the destination checked first: a request whose
/// destination is not a syntactically valid absolute URL is turned away
/// before any datastore interaction, and the store is left untouched.
pub fn allocate_checked(store: &mut MemStore, request: &SlugRequest) -> (r: Option<
    Result<SlugRecord, AllocationError>,
>)
    requires
        old(store).wf(),
    ensures
        final(store).wf(),
        r is None <==> !url_accepted(request@.destination),
        r is None ==> final(store)@ == old(store)@ && final(store).spec_clock() == old(
            store,
        ).spec_clock(),
        r matches Some(res) ==> allocate_post(
            old(store)@,
            old(store).spec_clock(),
            final(store)@,
            request@,
            res,
        ),
{
    if destination_accepted(&request.destination) {
        Some(allocate(store, request))
    } else {
        None
    }
}

} // verus!
