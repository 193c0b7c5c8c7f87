//! Generation of a range of spawn indices: each index yields one
//! candidate, which is resolved against the bodies already stored and
//! appended if it is accepted.

use crate::body::PlacedBody;
use crate::classification::{StarData, CLASS_DRAW_CEILING};
use crate::overlap::{
    lemma_accepted_is_clear, resolution, resolve, resolve_with_nudges, ResolverPolicy,
};
use crate::placement::{
    arm_index_of, candidate_for, star_candidate, Parameters, SpiralPoint, SpiralSample,
    POSITION_JITTER, RADIUS_JITTER_FLOOR,
};
use crate::random::SeededRandomSource;
use crate::store::{all_valid, pairwise_clear, PositionStore};
use vstd::prelude::*;

verus! {

/// Everything that is drawn for one star, with the spiral point that the
/// geometry function returned for it.
#[derive(Clone, Debug)]
pub struct StarRoll {
    pub point: SpiralPoint,
    pub class_draw: i64,
    pub offset_x: i64,
    pub offset_y: i64,
    pub nudges: Vec<(i64, i64)>,
}

/// A star roll as a mathematical value.
pub struct RollModel {
    pub point: SpiralPoint,
    pub class_draw: i64,
    pub offset_x: i64,
    pub offset_y: i64,
    pub nudges: Seq<(i64, i64)>,
}

impl View for StarRoll {
    type V = RollModel;

    open spec fn view(&self) -> RollModel {
        RollModel {
            point: self.point,
            class_draw: self.class_draw,
            offset_x: self.offset_x,
            offset_y: self.offset_y,
            nudges: self.nudges@,
        }
    }
}

impl RollModel {
    /// Each draw lies in the range it is drawn from, and there are no more
    /// nudges than the star budget allows.
    pub open spec fn in_range(self) -> bool {
        &&& 0 <= self.class_draw < CLASS_DRAW_CEILING
        &&& -POSITION_JITTER <= self.offset_x < POSITION_JITTER
        &&& -POSITION_JITTER <= self.offset_y < POSITION_JITTER
        &&& self.nudges.len() <= ResolverPolicy::for_stars().cap()
        &&& ResolverPolicy::for_stars().admits_all(self.nudges)
    }
}

/// The rolls of a sequence of stars as mathematical values.
pub open spec fn roll_models(rolls: Seq<StarRoll>) -> Seq<RollModel> {
    rolls.map_values(|roll: StarRoll| roll@)
}

/// The body that spawn index `index` contributes under `roll`, if its
/// candidate is accepted.
pub open spec fn star_outcome(
    existing: Seq<PlacedBody>,
    index: int,
    params: Parameters,
    table: StarData,
    roll: RollModel,
) -> Option<PlacedBody> {
    resolution(
        existing,
        candidate_for(
            index,
            params,
            table,
            roll.point,
            roll.class_draw as int,
            roll.offset_x as int,
            roll.offset_y as int,
        ),
        roll.nudges,
        0,
        ResolverPolicy::for_stars(),
    )
}

/// The store after spawn index `index` had its turn: one body longer if
/// the candidate was accepted, unchanged if it was given up.
pub open spec fn placed(
    existing: Seq<PlacedBody>,
    index: int,
    params: Parameters,
    table: StarData,
    roll: RollModel,
) -> Seq<PlacedBody> {
    match star_outcome(existing, index, params, table, roll) {
        Some(body) => existing.push(body),
        None => existing,
    }
}

/// The store after the spawn indices `start`, `start + 1`, ... had their
/// turns in order, one for each roll.
pub open spec fn generated(
    existing: Seq<PlacedBody>,
    start: int,
    params: Parameters,
    table: StarData,
    rolls: Seq<RollModel>,
) -> Seq<PlacedBody>
    decreases rolls.len(),
{
    if rolls.len() == 0 {
        existing
    } else {
        placed(
            generated(existing, start, params, table, rolls.drop_last()),
            start + rolls.len() - 1,
            params,
            table,
            rolls.last(),
        )
    }
}

/// How many of the spawn indices `start`, `start + 1`, ... had their
/// candidate given up.
pub open spec fn discards(
    existing: Seq<PlacedBody>,
    start: int,
    params: Parameters,
    table: StarData,
    rolls: Seq<RollModel>,
) -> nat
    decreases rolls.len(),
{
    if rolls.len() == 0 {
        0
    } else {
        let before = generated(existing, start, params, table, rolls.drop_last());
        let earlier = discards(existing, start, params, table, rolls.drop_last());
        if star_outcome(before, start + rolls.len() - 1, params, table, rolls.last()) is Some {
            earlier
        } else {
            earlier + 1
        }
    }
}

/// The number of spawn indices in `start..end`.
pub open spec fn span(start: int, end: int) -> nat {
    if end > start {
        (end - start) as nat
    } else {
        0
    }
}

/// A turn keeps a well-formed store well formed and keeps what was stored
/// before as it was.
pub proof fn lemma_placed_keeps_store(
    existing: Seq<PlacedBody>,
    index: int,
    params: Parameters,
    table: StarData,
    roll: RollModel,
)
    requires
        all_valid(existing),
        pairwise_clear(existing),
    ensures
        all_valid(placed(existing, index, params, table, roll)),
        pairwise_clear(placed(existing, index, params, table, roll)),
        existing.len() <= placed(existing, index, params, table, roll).len() <= existing.len()
            + 1,
        placed(existing, index, params, table, roll).subrange(0, existing.len() as int)
            == existing,
{
    let candidate = candidate_for(
        index,
        params,
        table,
        roll.point,
        roll.class_draw as int,
        roll.offset_x as int,
        roll.offset_y as int,
    );
    lemma_accepted_is_clear(existing, candidate, roll.nudges, 0, ResolverPolicy::for_stars());
    let after = placed(existing, index, params, table, roll);
    assert(after.subrange(0, existing.len() as int) =~= existing);
}

/// Generation keeps a well-formed store well formed, keeps what was stored
/// before as it was, and adds one body for each spawn index whose candidate
/// was not given up: the store grows by the number of indices less the
/// number of discards.
pub proof fn lemma_generated_accounts(
    existing: Seq<PlacedBody>,
    start: int,
    params: Parameters,
    table: StarData,
    rolls: Seq<RollModel>,
)
    requires
        all_valid(existing),
        pairwise_clear(existing),
    ensures
        all_valid(generated(existing, start, params, table, rolls)),
        pairwise_clear(generated(existing, start, params, table, rolls)),
        generated(existing, start, params, table, rolls).len() + discards(
            existing,
            start,
            params,
            table,
            rolls,
        ) == existing.len() + rolls.len(),
        discards(existing, start, params, table, rolls) <= rolls.len(),
        generated(existing, start, params, table, rolls).subrange(0, existing.len() as int)
            == existing,
    decreases rolls.len(),
{
    if rolls.len() == 0 {
        assert(existing.subrange(0, existing.len() as int) =~= existing);
    } else {
        lemma_generated_accounts(existing, start, params, table, rolls.drop_last());
        let before = generated(existing, start, params, table, rolls.drop_last());
        lemma_placed_keeps_store(before, start + rolls.len() - 1, params, table, rolls.last());
        let after = generated(existing, start, params, table, rolls);
        assert(after.subrange(0, existing.len() as int) =~= before.subrange(
            0,
            existing.len() as int,
        ));
    }
}

/// Generation is decided by the starting store, the first spawn index, the
/// configuration, the table and the rolls: two runs that agree on these,
/// roll by roll, leave the same bodies in the same order.
pub proof fn lemma_generation_is_decided(
    existing: Seq<PlacedBody>,
    start: int,
    params: Parameters,
    table: StarData,
    first: Seq<RollModel>,
    second: Seq<RollModel>,
)
    requires
        first.len() == second.len(),
        forall|k: int| 0 <= k < first.len() ==> first[k] == second[k],
    ensures
        generated(existing, start, params, table, first) == generated(
            existing,
            start,
            params,
            table,
            second,
        ),
{
    assert(first =~= second);
}

/// Gives spawn index `index` its turn with the given roll.
pub fn place_star(
    store: &mut PositionStore,
    index: i64,
    params: &Parameters,
    table: &StarData,
    roll: &StarRoll,
) -> (accepted: bool)
    requires
        old(store).wf(),
        params.wf(),
    ensures
        final(store).wf(),
        final(store)@ == placed(old(store)@, index as int, *params, *table, roll@),
        accepted == star_outcome(old(store)@, index as int, *params, *table, roll@) is Some,
{
    let candidate: PlacedBody = star_candidate(
        index,
        params,
        table,
        roll.point,
        roll.class_draw,
        roll.offset_x,
        roll.offset_y,
    );
    let policy: ResolverPolicy = ResolverPolicy::stars();
    proof {
        lemma_accepted_is_clear(store@, candidate, roll.nudges@, 0, policy);
    }
    match resolve_with_nudges(candidate, store, &roll.nudges, &policy) {
        Some(body) => {
            store.append(body);
            true
        },
        None => false,
    }
}

/// The rolls that a generation of `start..end` from `rolls` uses: one for
/// each spawn index, as far as the rolls last.
pub open spec fn rolls_used(rolls: Seq<StarRoll>, start: int, end: int) -> Seq<RollModel> {
    if span(start, end) < rolls.len() {
        roll_models(rolls).subrange(0, span(start, end) as int)
    } else {
        roll_models(rolls)
    }
}

/// Generates the spawn indices of `start..end` in order with the given
/// rolls, one for each index, and returns how many bodies were added.
/// Where the rolls run out before the range does, generation ends there.
pub fn generate_from_rolls(
    store: &mut PositionStore,
    start: i64,
    end: i64,
    params: &Parameters,
    table: &StarData,
    rolls: &Vec<StarRoll>,
) -> (added: usize)
    requires
        old(store).wf(),
        params.wf(),
    ensures
        final(store).wf(),
        final(store)@ == generated(
            old(store)@,
            start as int,
            *params,
            *table,
            rolls_used(rolls@, start as int, end as int),
        ),
        final(store)@.len() == old(store)@.len() + added,
        added + discards(
            old(store)@,
            start as int,
            *params,
            *table,
            rolls_used(rolls@, start as int, end as int),
        ) == rolls_used(rolls@, start as int, end as int).len(),
        span(start as int, end as int) == 0 || rolls.len() == 0 ==> *final(store) == *old(store),
{
    let ghost models = roll_models(rolls@);
    let mut added: usize = 0;
    let mut done: usize = 0;
    let mut index: i64 = start;
    proof {
        assert(models.subrange(0, 0) =~= Seq::<RollModel>::empty());
    }
    while done < rolls.len() && index < end
        invariant
            done <= rolls.len(),
            added <= done,
            index == start + done,
            index <= end || done == 0,
            done == 0 ==> *store == *old(store),
            params.wf(),
            store.wf(),
            models == roll_models(rolls@),
            store@ == generated(
                old(store)@,
                start as int,
                *params,
                *table,
                models.subrange(0, done as int),
            ),
            store@.len() == old(store)@.len() + added,
            added + discards(
                old(store)@,
                start as int,
                *params,
                *table,
                models.subrange(0, done as int),
            ) == done,
        decreases rolls.len() - done,
    {
        proof {
            let longer = models.subrange(0, done as int + 1);
            assert(longer.drop_last() =~= models.subrange(0, done as int));
            assert(longer.last() == rolls@[done as int]@);
        }
        if place_star(store, index, params, table, &rolls[done]) {
            added += 1;
        }
        done += 1;
        index += 1;
    }
    proof {
        assert(models.subrange(0, rolls.len() as int) =~= models);
        assert(rolls_used(rolls@, start as int, end as int) =~= models.subrange(0, done as int));
    }
    added
}

/// Gives spawn index `index` its turn: draws the jitters, asks `geometry`
/// for the spiral point, draws the size class and the positional jitter,
/// and resolves the candidate against the store, drawing nudges as needed.
///
/// Whatever is drawn and whatever point `geometry` returns, the store ends
/// as the turn of `index` leaves it under some roll whose draws lie in
/// their ranges and whose point `geometry` returned for a sample that fits
/// `index`.
pub fn spawn_star<F: Fn(SpiralSample) -> SpiralPoint>(
    store: &mut PositionStore,
    rng: &mut SeededRandomSource,
    index: i64,
    params: &Parameters,
    table: &StarData,
    geometry: &F,
) -> (accepted: bool)
    requires
        old(store).wf(),
        params.wf(),
        forall|sample: SpiralSample| call_requires(geometry, (sample,)),
    ensures
        final(store).wf(),
        final(rng).seed_value() == old(rng).seed_value(),
        exists|sample: SpiralSample, roll: RollModel|
            #![trigger sample.fits(index as int, *params), roll.in_range()]
            sample.fits(index as int, *params) && call_ensures(geometry, (sample,), roll.point)
                && roll.in_range() && final(store)@ == placed(
                old(store)@,
                index as int,
                *params,
                *table,
                roll,
            ) && accepted == star_outcome(old(store)@, index as int, *params, *table, roll)
                is Some,
{
    let arm_index: i64 = arm_index_of(index, params.spiral_arm_count);
    let angle_jitter: i64 = rng.draw(0, params.angle_mod);
    let radius_jitter: i64 = rng.draw(RADIUS_JITTER_FLOOR, params.radius_mod);
    let sample: SpiralSample = SpiralSample {
        arm_index,
        angle_jitter,
        radius_jitter,
        radius_mod: params.radius_mod,
        distance_mod: params.distance_mod,
    };
    let point: SpiralPoint = geometry(sample);
    let class_draw: i64 = rng.draw(0, CLASS_DRAW_CEILING);
    let offset_x: i64 = rng.draw(-POSITION_JITTER, POSITION_JITTER);
    let offset_y: i64 = rng.draw(-POSITION_JITTER, POSITION_JITTER);
    let candidate: PlacedBody = star_candidate(
        index,
        params,
        table,
        point,
        class_draw,
        offset_x,
        offset_y,
    );
    let policy: ResolverPolicy = ResolverPolicy::stars();
    let resolved: Option<PlacedBody> = resolve(candidate, store, rng, &policy);
    let ghost nudges = choose|nudges: Seq<(i64, i64)>|
        nudges.len() <= policy.cap() && policy.admits_all(nudges) && resolved
            == #[trigger] resolution(store@, candidate, nudges, 0, policy);
    let ghost roll = RollModel { point, class_draw, offset_x, offset_y, nudges };
    let accepted: bool = match resolved {
        Some(body) => {
            store.append(body);
            true
        },
        None => false,
    };
    proof {
        assert(sample.fits(index as int, *params));
        assert(roll.in_range());
        assert(star_outcome(old(store)@, index as int, *params, *table, roll) == resolved);
        assert(store@ == placed(old(store)@, index as int, *params, *table, roll));
    }
    accepted
}

/// The sample at place `k` fits the spawn index `start + k`, `geometry`
/// returned the point of the roll at place `k` for it, and the draws of
/// that roll lie in their ranges.
pub open spec fn roll_follows<F: Fn(SpiralSample) -> SpiralPoint>(
    samples: Seq<SpiralSample>,
    rolls: Seq<RollModel>,
    start: int,
    params: Parameters,
    geometry: &F,
    k: int,
) -> bool {
    &&& samples[k].fits(start + k, params)
    &&& call_ensures(geometry, (samples[k],), rolls[k].point)
    &&& rolls[k].in_range()
}

/// There is one sample for each roll, and each roll follows from the
/// sample at its place.
pub open spec fn rolls_follow<F: Fn(SpiralSample) -> SpiralPoint>(
    samples: Seq<SpiralSample>,
    rolls: Seq<RollModel>,
    start: int,
    params: Parameters,
    geometry: &F,
) -> bool {
    &&& samples.len() == rolls.len()
    &&& forall|k: int|
        0 <= k < rolls.len() ==> #[trigger] roll_follows(samples, rolls, start, params, geometry, k)
}

/// Generates the spawn indices of `start..end` in order and returns how
/// many bodies were added.
///
/// Whatever is drawn, the store ends as generation leaves it under some
/// rolls, one for each index, whose draws lie in their ranges and whose
/// points `geometry` returned for samples that fit the indices. An empty
/// range takes no draw and changes nothing.
pub fn generate_star_positions_in_range<F: Fn(SpiralSample) -> SpiralPoint>(
    store: &mut PositionStore,
    rng: &mut SeededRandomSource,
    start: i64,
    end: i64,
    params: &Parameters,
    table: &StarData,
    geometry: &F,
) -> (added: usize)
    requires
        old(store).wf(),
        params.wf(),
        forall|sample: SpiralSample| call_requires(geometry, (sample,)),
    ensures
        final(store).wf(),
        final(rng).seed_value() == old(rng).seed_value(),
        final(store)@.len() == old(store)@.len() + added,
        added <= span(start as int, end as int),
        final(store)@.subrange(0, old(store)@.len() as int) == old(store)@,
        span(start as int, end as int) == 0 ==> *final(rng) == *old(rng) && *final(store) == *old(
            store,
        ),
        exists|samples: Seq<SpiralSample>, rolls: Seq<RollModel>|
            #![trigger rolls_follow(samples, rolls, start as int, *params, geometry)]
            rolls.len() == span(start as int, end as int) && rolls_follow(
                samples,
                rolls,
                start as int,
                *params,
                geometry,
            ) && final(store)@ == generated(old(store)@, start as int, *params, *table, rolls),
{
    let ghost mut samples: Seq<SpiralSample> = Seq::empty();
    let ghost mut rolls: Seq<RollModel> = Seq::empty();
    let mut added: usize = 0;
    let mut index: i64 = start;
    while index < end
        invariant
            rolls.len() == span(start as int, index as int),
            start <= index,
            index <= end || index == start,
            added <= rolls.len(),
            params.wf(),
            store.wf(),
            forall|sample: SpiralSample| call_requires(geometry, (sample,)),
            rng.seed_value() == old(rng).seed_value(),
            index == start ==> *rng == *old(rng) && *store == *old(store),
            rolls_follow(samples, rolls, start as int, *params, geometry),
            store@ == generated(old(store)@, start as int, *params, *table, rolls),
            store@.len() == old(store)@.len() + added,
        decreases end - index,
    {
        let ghost before = store@;
        let accepted: bool = spawn_star(store, rng, index, params, table, geometry);
        proof {
            let (sample, roll) = choose|sample: SpiralSample, roll: RollModel|
                #![trigger sample.fits(index as int, *params), roll.in_range()]
                sample.fits(index as int, *params) && call_ensures(
                    geometry,
                    (sample,),
                    roll.point,
                ) && roll.in_range() && store@ == placed(
                    before,
                    index as int,
                    *params,
                    *table,
                    roll,
                ) && accepted == star_outcome(before, index as int, *params, *table, roll)
                    is Some;
            let longer = rolls.push(roll);
            let more = samples.push(sample);
            assert(longer.drop_last() =~= rolls);
            assert(longer.last() == roll);
            assert forall|k: int| 0 <= k < longer.len() implies #[trigger] roll_follows(
                more,
                longer,
                start as int,
                *params,
                geometry,
                k,
            ) by {
                if k < rolls.len() {
                    assert(roll_follows(samples, rolls, start as int, *params, geometry, k));
                }
            }
            samples = more;
            rolls = longer;
            store.lemma_len_fits();
        }
        if accepted {
            added += 1;
        }
        index += 1;
    }
    proof {
        lemma_generated_accounts(old(store)@, start as int, *params, *table, rolls);
    }
    added
}

} // verus!
