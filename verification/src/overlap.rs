//! The overlap resolver: a candidate that overlaps a stored body is nudged
//! by random offsets, and is given up once the attempt budget is spent.

use crate::body::PlacedBody;
use crate::random::SeededRandomSource;
use crate::store::{blocked_by, PositionStore};
use vstd::prelude::*;

verus! {

/// Budget of nudges for a star.
pub const STAR_ATTEMPT_CAP: u32 = 20;

/// Half-width of the window from which a star's nudge is drawn.
pub const STAR_NUDGE_WINDOW: i64 = 50_000;

/// How hard the resolver tries: the budget of nudges and the window each
/// nudge is drawn from.
#[derive(Clone, Copy, Debug)]
pub struct ResolverPolicy {
    attempt_cap: u32,
    nudge_window: i64,
}

impl ResolverPolicy {
    /// The budget of nudges.
    pub closed spec fn cap(self) -> nat {
        self.attempt_cap as nat
    }

    /// Half-width of the nudge window: each offset is drawn from
    /// `-window..window`.
    pub closed spec fn window(self) -> int {
        self.nudge_window as int
    }

    /// The window is not empty.
    pub open spec fn wf(self) -> bool {
        0 < self.window()
    }

    /// `nudge` lies in the window.
    pub open spec fn admits(self, nudge: (i64, i64)) -> bool {
        &&& -self.window() <= nudge.0 < self.window()
        &&& -self.window() <= nudge.1 < self.window()
    }

    /// Every nudge of `nudges` lies in the window.
    pub open spec fn admits_all(self, nudges: Seq<(i64, i64)>) -> bool {
        forall|i: int| 0 <= i < nudges.len() ==> self.admits(#[trigger] nudges[i])
    }

    /// The policy with the given budget and window.
    pub closed spec fn of(attempt_cap: u32, nudge_window: i64) -> ResolverPolicy {
        ResolverPolicy { attempt_cap, nudge_window }
    }

    /// The policy for stars: the star budget and the star window.
    pub closed spec fn for_stars() -> ResolverPolicy {
        ResolverPolicy { attempt_cap: STAR_ATTEMPT_CAP, nudge_window: STAR_NUDGE_WINDOW }
    }

    /// The policy for stars.
    pub fn stars() -> (policy: ResolverPolicy)
        ensures
            policy == Self::for_stars(),
            policy.wf(),
            policy.cap() == STAR_ATTEMPT_CAP,
            policy.window() == STAR_NUDGE_WINDOW,
    {
        ResolverPolicy { attempt_cap: STAR_ATTEMPT_CAP, nudge_window: STAR_NUDGE_WINDOW }
    }

    /// A policy with the given budget and window, if the window is not
    /// empty.
    pub fn new(attempt_cap: u32, nudge_window: i64) -> (policy: Option<ResolverPolicy>)
        ensures
            policy is Some <==> 0 < nudge_window,
            policy matches Some(p) ==> p == Self::of(attempt_cap, nudge_window) && p.wf() && p.cap()
                == attempt_cap && p.window() == nudge_window,
    {
        if 0 < nudge_window {
            Some(ResolverPolicy { attempt_cap, nudge_window })
        } else {
            None
        }
    }

    /// The budget of nudges.
    pub fn attempt_cap(&self) -> (cap: u32)
        ensures
            cap == self.cap(),
    {
        self.attempt_cap
    }

    /// Half-width of the nudge window.
    pub fn nudge_window(&self) -> (window: i64)
        ensures
            window == self.window(),
    {
        self.nudge_window
    }
}

/// The star policy is valid, with the star budget and the star window.
pub proof fn lemma_star_policy()
    ensures
        ResolverPolicy::for_stars() == ResolverPolicy::of(STAR_ATTEMPT_CAP, STAR_NUDGE_WINDOW),
        ResolverPolicy::for_stars().wf(),
        ResolverPolicy::for_stars().cap() == STAR_ATTEMPT_CAP,
        ResolverPolicy::for_stars().window() == STAR_NUDGE_WINDOW,
{
}

/// A policy has the budget and the window it was made with.
pub proof fn lemma_policy_of(attempt_cap: u32, nudge_window: i64)
    ensures
        ResolverPolicy::of(attempt_cap, nudge_window).cap() == attempt_cap,
        ResolverPolicy::of(attempt_cap, nudge_window).window() == nudge_window,
{
}

/// What becomes of `candidate` against `existing` when `attempts` nudges
/// are already spent and `nudges` are still to come.
///
/// While the candidate overlaps a stored body and the budget is not spent,
/// it moves by the next nudge. It is accepted where it comes to rest only
/// if it is valid, overlaps nothing, and leaves at least two attempts of
/// the budget unspent: a candidate that comes to rest later, or runs out
/// of nudges, is given up.
pub open spec fn resolution(
    existing: Seq<PlacedBody>,
    candidate: PlacedBody,
    nudges: Seq<(i64, i64)>,
    attempts: nat,
    policy: ResolverPolicy,
) -> Option<PlacedBody>
    decreases nudges.len(),
{
    if blocked_by(existing, candidate) && attempts < policy.cap() && nudges.len() > 0 {
        resolution(
            existing,
            candidate.shifted(nudges[0].0 as int, nudges[0].1 as int),
            nudges.drop_first(),
            attempts + 1,
            policy,
        )
    } else if !blocked_by(existing, candidate) && attempts + 1 < policy.cap() && candidate.wf() {
        Some(candidate)
    } else {
        None
    }
}

/// An accepted body is valid, overlaps no stored body, and has the radius
/// of the candidate it came from.
pub proof fn lemma_accepted_is_clear(
    existing: Seq<PlacedBody>,
    candidate: PlacedBody,
    nudges: Seq<(i64, i64)>,
    attempts: nat,
    policy: ResolverPolicy,
)
    ensures
        resolution(existing, candidate, nudges, attempts, policy) matches Some(body) ==> body.wf()
            && !blocked_by(existing, body) && body.radius == candidate.radius,
    decreases nudges.len(),
{
    if blocked_by(existing, candidate) && attempts < policy.cap() && nudges.len() > 0 {
        lemma_accepted_is_clear(
            existing,
            candidate.shifted(nudges[0].0 as int, nudges[0].1 as int),
            nudges.drop_first(),
            (attempts + 1) as nat,
            policy,
        );
    }
}

/// A valid candidate that overlaps nothing is accepted where it stands,
/// whatever nudges are at hand, as long as the budget holds two attempts.
/// A candidate without a radius is never accepted, and neither is any
/// candidate under a budget of less than two attempts.
pub proof fn lemma_clear_candidate_is_kept(
    existing: Seq<PlacedBody>,
    candidate: PlacedBody,
    nudges: Seq<(i64, i64)>,
    policy: ResolverPolicy,
)
    ensures
        candidate.wf() && !blocked_by(existing, candidate) && policy.cap() >= 2 ==> resolution(
            existing,
            candidate,
            nudges,
            0,
            policy,
        ) == Some(candidate),
        candidate.radius == 0 || policy.cap() < 2 ==> resolution(
            existing,
            candidate,
            nudges,
            0,
            policy,
        ) is None,
{
    lemma_never_accepted(existing, candidate, nudges, 0, policy);
}

/// Nudges do not change the radius, so a candidate without a radius stays
/// invalid; and a budget of less than two attempts leaves none to accept
/// at.
proof fn lemma_never_accepted(
    existing: Seq<PlacedBody>,
    candidate: PlacedBody,
    nudges: Seq<(i64, i64)>,
    attempts: nat,
    policy: ResolverPolicy,
)
    ensures
        candidate.radius == 0 || policy.cap() < 2 ==> resolution(
            existing,
            candidate,
            nudges,
            attempts,
            policy,
        ) is None,
    decreases nudges.len(),
{
    if blocked_by(existing, candidate) && attempts < policy.cap() && nudges.len() > 0 {
        lemma_never_accepted(
            existing,
            candidate.shifted(nudges[0].0 as int, nudges[0].1 as int),
            nudges.drop_first(),
            (attempts + 1) as nat,
            policy,
        );
    }
}

/// Resolves `candidate` against `existing` with the given nudges, taken in
/// order.
pub fn resolve_with_nudges(
    candidate: PlacedBody,
    existing: &PositionStore,
    nudges: &Vec<(i64, i64)>,
    policy: &ResolverPolicy,
) -> (accepted: Option<PlacedBody>)
    ensures
        accepted == resolution(existing@, candidate, nudges@, 0, *policy),
{
    let mut current: PlacedBody = candidate;
    let mut blocked: bool = existing.is_blocked(&current);
    let mut used: usize = 0;
    proof {
        assert(nudges@.subrange(0, nudges@.len() as int) =~= nudges@);
    }
    while blocked && (used as u64) < policy.attempt_cap as u64 && used < nudges.len()
        invariant
            used <= nudges.len(),
            used <= policy.cap(),
            blocked == blocked_by(existing@, current),
            resolution(existing@, candidate, nudges@, 0, *policy) == resolution(
                existing@,
                current,
                nudges@.subrange(used as int, nudges@.len() as int),
                used as nat,
                *policy,
            ),
        decreases nudges.len() - used,
    {
        let nudge: (i64, i64) = nudges[used];
        proof {
            let rest = nudges@.subrange(used as int, nudges@.len() as int);
            assert(rest[0] == nudge);
            assert(rest.drop_first() =~= nudges@.subrange(used as int + 1, nudges@.len() as int));
        }
        current = current.nudged(nudge.0, nudge.1);
        blocked = existing.is_blocked(&current);
        used += 1;
    }
    if !blocked && (used as u64) + 1 < policy.attempt_cap as u64 && current.is_valid() {
        Some(current)
    } else {
        None
    }
}

/// Resolves `candidate` against `existing`, drawing each nudge from `rng`
/// when it is needed.
///
/// Whatever is drawn, the outcome is the resolution of the candidate under
/// some nudges of the policy's window, no more of them than the budget
/// allows. A candidate that overlaps nothing takes no draw.
pub fn resolve(
    candidate: PlacedBody,
    existing: &PositionStore,
    rng: &mut SeededRandomSource,
    policy: &ResolverPolicy,
) -> (accepted: Option<PlacedBody>)
    requires
        policy.wf(),
    ensures
        exists|nudges: Seq<(i64, i64)>|
            nudges.len() <= policy.cap() && policy.admits_all(nudges) && accepted == #[trigger] resolution(
                existing@,
                candidate,
                nudges,
                0,
                *policy,
            ),
        accepted matches Some(body) ==> body.wf() && !blocked_by(existing@, body) && body.radius
            == candidate.radius,
        candidate.wf() && !blocked_by(existing@, candidate) && policy.cap() >= 2 ==> accepted
            == Some(candidate),
        candidate.radius == 0 || policy.cap() < 2 ==> accepted is None,
        final(rng).seed_value() == old(rng).seed_value(),
        !blocked_by(existing@, candidate) || policy.cap() == 0 ==> *final(rng) == *old(rng),
{
    let mut current: PlacedBody = candidate;
    let mut blocked: bool = existing.is_blocked(&current);
    let mut attempts: u32 = 0;
    let ghost mut drawn: Seq<(i64, i64)> = Seq::empty();
    proof {
        assert forall|rest: Seq<(i64, i64)>| #[trigger]
            resolution(existing@, candidate, drawn + rest, 0, *policy) == resolution(
                existing@,
                current,
                rest,
                attempts as nat,
                *policy,
            ) by {
            assert(drawn + rest =~= rest);
        }
    }
    while blocked && attempts < policy.attempt_cap
        invariant
            policy.wf(),
            attempts <= policy.cap(),
            attempts == drawn.len(),
            policy.admits_all(drawn),
            blocked == blocked_by(existing@, current),
            rng.seed_value() == old(rng).seed_value(),
            attempts == 0 ==> *rng == *old(rng) && current == candidate,
            attempts > 0 ==> blocked_by(existing@, candidate) && policy.cap() > 0,
            forall|rest: Seq<(i64, i64)>| #[trigger]
                resolution(existing@, candidate, drawn + rest, 0, *policy) == resolution(
                    existing@,
                    current,
                    rest,
                    attempts as nat,
                    *policy,
                ),
        decreases policy.cap() - attempts,
    {
        let window: i64 = policy.nudge_window;
        let dx: i64 = rng.draw(-window, window);
        let dy: i64 = rng.draw(-window, window);
        let moved: PlacedBody = current.nudged(dx, dy);
        proof {
            let longer = drawn.push((dx, dy));
            assert forall|rest: Seq<(i64, i64)>| #[trigger]
                resolution(existing@, candidate, longer + rest, 0, *policy) == resolution(
                    existing@,
                    moved,
                    rest,
                    (attempts + 1) as nat,
                    *policy,
                ) by {
                let whole = seq![(dx, dy)] + rest;
                assert(drawn + whole =~= longer + rest);
                assert(whole.drop_first() =~= rest);
                assert(resolution(existing@, candidate, drawn + whole, 0, *policy) == resolution(
                    existing@,
                    current,
                    whole,
                    attempts as nat,
                    *policy,
                ));
            }
            drawn = longer;
        }
        current = moved;
        blocked = existing.is_blocked(&current);
        attempts += 1;
    }
    proof {
        assert(drawn + Seq::<(i64, i64)>::empty() =~= drawn);
        assert(resolution(existing@, candidate, drawn + Seq::<(i64, i64)>::empty(), 0, *policy)
            == resolution(
            existing@,
            current,
            Seq::<(i64, i64)>::empty(),
            attempts as nat,
            *policy,
        ));
        lemma_accepted_is_clear(existing@, candidate, drawn, 0, *policy);
    }
    if !blocked && (attempts as u64) + 1 < policy.attempt_cap as u64 && current.is_valid() {
        Some(current)
    } else {
        None
    }
}

} // verus!
