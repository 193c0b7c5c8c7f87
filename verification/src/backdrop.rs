//! The backdrop: faint stars that are scattered over the whole view behind
//! the spiral. A backdrop star is moved off the stored bodies like any
//! other candidate, but it is only drawn: it is never stored.

use crate::body::{clamp_sum, clamp_to_world, PlacedBody};
use crate::classification::{tint, StarData, COLOR_MARGIN};
use crate::events::{SpawnVisual, StarCount};
use crate::overlap::{
    lemma_accepted_is_clear, lemma_policy_of, resolution, resolve, resolve_with_nudges,
    ResolverPolicy,
};
use crate::random::SeededRandomSource;
use crate::store::{blocked_by, PositionStore};
use vstd::prelude::*;

verus! {

/// The backdrop takes the steps from one up to this, exclusive.
pub const BACKDROP_STEPS: i64 = 20_000;

/// Budget of nudges for a backdrop star.
pub const BACKDROP_ATTEMPT_CAP: u32 = 10;

/// The tag that every backdrop visual carries.
pub const BACKDROP_TAG: i64 = 11;

/// Smallest radius of a backdrop star.
pub const BACKDROP_RADIUS_FLOOR: i64 = 10;

/// How far the radius of a backdrop star may go beyond the radius of the
/// second commonest class.
pub const BACKDROP_RADIUS_MARGIN: i64 = 100;

/// How much wider the scatter grows with each step, on each side.
pub const BACKDROP_SPREAD: i64 = 90;

/// Everything that is drawn for one backdrop star.
#[derive(Clone, Debug)]
pub struct BackdropRoll {
    pub radius: i64,
    pub x: i64,
    pub y: i64,
    pub nudges: Vec<(i64, i64)>,
}

/// A backdrop roll as a mathematical value.
pub struct BackdropModel {
    pub radius: i64,
    pub x: i64,
    pub y: i64,
    pub nudges: Seq<(i64, i64)>,
}

impl View for BackdropRoll {
    type V = BackdropModel;

    open spec fn view(&self) -> BackdropModel {
        BackdropModel { radius: self.radius, x: self.x, y: self.y, nudges: self.nudges@ }
    }
}

/// Exclusive upper bound of the radius of a backdrop star: the margin
/// beyond the radius of the second commonest class, as far as a radius can
/// hold it.
pub open spec fn backdrop_radius_ceiling(table: StarData) -> int {
    if table.k_class_radius + BACKDROP_RADIUS_MARGIN <= u32::MAX {
        table.k_class_radius + BACKDROP_RADIUS_MARGIN
    } else {
        u32::MAX + 1
    }
}

/// Half-width of the scatter at `step`.
pub open spec fn backdrop_reach(step: int) -> int {
    step * BACKDROP_SPREAD
}

/// The step has a scatter to draw from: it is positive, and its reach fits
/// the machine word.
pub open spec fn backdrop_step_valid(step: int) -> bool {
    1 <= step && backdrop_reach(step) <= i64::MAX
}

impl BackdropModel {
    /// Each draw lies in the range it is drawn from at `step`: the radius
    /// below the ceiling, the place within the reach of the step, each
    /// nudge within one radius, and no more nudges than the budget allows.
    pub open spec fn in_range(self, step: int, table: StarData) -> bool {
        &&& BACKDROP_RADIUS_FLOOR <= self.radius < backdrop_radius_ceiling(table)
        &&& -backdrop_reach(step) <= self.x < backdrop_reach(step)
        &&& -backdrop_reach(step) <= self.y < backdrop_reach(step)
        &&& self.nudges.len() <= BACKDROP_ATTEMPT_CAP
        &&& ResolverPolicy::of(BACKDROP_ATTEMPT_CAP, self.radius).admits_all(self.nudges)
    }
}

/// The visual of a backdrop star that came to rest as `body`: tagged with
/// the backdrop tag, and coloured by the radius raised twice by the colour
/// margin.
pub open spec fn backdrop_visual(body: PlacedBody, table: StarData) -> SpawnVisual {
    SpawnVisual {
        index: StarCount(BACKDROP_TAG),
        x: body.x,
        y: body.y,
        radius: body.radius,
        color: table.tint_of(body.radius + 2 * COLOR_MARGIN),
    }
}

/// What becomes of the backdrop star of `roll` against `existing`.
///
/// The star starts at the drawn place, clamped to the world, and is
/// resolved with the backdrop budget and a nudge window of one radius. A
/// roll whose radius no body can hold, or which is not positive, gives
/// nothing.
pub open spec fn backdrop_outcome(existing: Seq<PlacedBody>, table: StarData, roll: BackdropModel)
    -> Option<SpawnVisual> {
    if roll.radius < 1 || roll.radius > u32::MAX {
        None
    } else {
        match resolution(
            existing,
            PlacedBody {
                x: clamp_to_world(roll.x as int),
                y: clamp_to_world(roll.y as int),
                radius: roll.radius as u32,
            },
            roll.nudges,
            0,
            ResolverPolicy::of(BACKDROP_ATTEMPT_CAP, roll.radius),
        ) {
            Some(body) => Some(backdrop_visual(body, table)),
            None => None,
        }
    }
}

/// A backdrop star that is shown is valid, overlaps no stored body, keeps
/// the radius that was drawn for it, and carries the backdrop tag and the
/// colour of its radius.
pub proof fn lemma_backdrop_star_is_clear(
    existing: Seq<PlacedBody>,
    table: StarData,
    roll: BackdropModel,
)
    ensures
        backdrop_outcome(existing, table, roll) matches Some(visual) ==> {
            let body = PlacedBody { x: visual.x, y: visual.y, radius: visual.radius };
            &&& body.wf()
            &&& !blocked_by(existing, body)
            &&& visual.radius == roll.radius
            &&& visual.index == StarCount(BACKDROP_TAG)
            &&& visual.color == table.tint_of(visual.radius + 2 * COLOR_MARGIN)
        },
{
    if 1 <= roll.radius <= u32::MAX {
        lemma_accepted_is_clear(
            existing,
            PlacedBody {
                x: clamp_to_world(roll.x as int),
                y: clamp_to_world(roll.y as int),
                radius: roll.radius as u32,
            },
            roll.nudges,
            0,
            ResolverPolicy::of(BACKDROP_ATTEMPT_CAP, roll.radius),
        );
    }
}

/// Builds the visual of a backdrop star that came to rest as `body`.
fn visual_of_backdrop(body: PlacedBody, table: &StarData) -> (visual: SpawnVisual)
    ensures
        visual == backdrop_visual(body, *table),
{
    SpawnVisual {
        index: StarCount(BACKDROP_TAG),
        x: body.x,
        y: body.y,
        radius: body.radius,
        color: tint(body.radius as u64 + COLOR_MARGIN as u64 + COLOR_MARGIN as u64, table),
    }
}

/// Resolves the backdrop star of `roll` against `existing`.
pub fn backdrop_star_from(existing: &PositionStore, table: &StarData, roll: &BackdropRoll) -> (visual:
    Option<SpawnVisual>)
    ensures
        visual == backdrop_outcome(existing@, *table, roll@),
{
    if roll.radius < 1 || roll.radius > u32::MAX as i64 {
        return None;
    }
    let policy: ResolverPolicy = match ResolverPolicy::new(BACKDROP_ATTEMPT_CAP, roll.radius) {
        Some(policy) => policy,
        None => {
            return None;
        },
    };
    let candidate: PlacedBody = PlacedBody {
        x: clamp_sum(roll.x, 0),
        y: clamp_sum(roll.y, 0),
        radius: roll.radius as u32,
    };
    match resolve_with_nudges(candidate, existing, &roll.nudges, &policy) {
        Some(body) => Some(visual_of_backdrop(body, table)),
        None => None,
    }
}

/// Tries the backdrop star of `step`: draws its radius and its place,
/// and resolves it against `existing`, drawing nudges as needed.
///
/// A step without a scatter gives nothing and takes no draw. Otherwise,
/// whatever is drawn, the outcome is that of some roll whose draws lie in
/// their ranges at `step`.
pub fn backdrop_star(
    step: i64,
    existing: &PositionStore,
    table: &StarData,
    rng: &mut SeededRandomSource,
) -> (visual: Option<SpawnVisual>)
    ensures
        final(rng).seed_value() == old(rng).seed_value(),
        !backdrop_step_valid(step as int) ==> visual is None && *final(rng) == *old(rng),
        backdrop_step_valid(step as int) ==> exists|roll: BackdropModel|
            #![trigger roll.in_range(step as int, *table)]
            roll.in_range(step as int, *table) && visual == backdrop_outcome(
                existing@,
                *table,
                roll,
            ),
        visual matches Some(v) ==> v.index == StarCount(BACKDROP_TAG) && BACKDROP_RADIUS_FLOOR
            <= v.radius < backdrop_radius_ceiling(*table) && !blocked_by(
            existing@,
            PlacedBody { x: v.x, y: v.y, radius: v.radius },
        ) && v.color == table.tint_of(v.radius + 2 * COLOR_MARGIN),
{
    if step < 1 || step > i64::MAX / BACKDROP_SPREAD {
        return None;
    }
    let reach: i64 = step * BACKDROP_SPREAD;
    let wide: i64 = table.k_class_radius as i64 + BACKDROP_RADIUS_MARGIN;
    let ceiling: i64 = if wide <= u32::MAX as i64 {
        wide
    } else {
        u32::MAX as i64 + 1
    };
    let radius: i64 = rng.draw(BACKDROP_RADIUS_FLOOR, ceiling);
    let x: i64 = rng.draw(-reach, reach);
    let y: i64 = rng.draw(-reach, reach);
    let policy: ResolverPolicy = match ResolverPolicy::new(BACKDROP_ATTEMPT_CAP, radius) {
        Some(policy) => policy,
        None => {
            return None;
        },
    };
    let candidate: PlacedBody = PlacedBody {
        x: clamp_sum(x, 0),
        y: clamp_sum(y, 0),
        radius: radius as u32,
    };
    let resolved: Option<PlacedBody> = resolve(candidate, existing, rng, &policy);
    proof {
        lemma_policy_of(BACKDROP_ATTEMPT_CAP, radius);
        let nudges = choose|nudges: Seq<(i64, i64)>|
            nudges.len() <= policy.cap() && policy.admits_all(nudges) && resolved
                == #[trigger] resolution(existing@, candidate, nudges, 0, policy);
        let roll = BackdropModel { radius, x, y, nudges };
        assert(roll.in_range(step as int, *table));
        assert(backdrop_outcome(existing@, *table, roll) == match resolved {
            Some(body) => Some(backdrop_visual(body, *table)),
            None => None,
        });
        lemma_backdrop_star_is_clear(existing@, *table, roll);
    }
    match resolved {
        Some(body) => Some(visual_of_backdrop(body, table)),
        None => None,
    }
}

} // verus!
