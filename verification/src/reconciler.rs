//! The population reconciler: the configuration with the random source and
//! the position store it owns, and the steps that bring the stored
//! population in line with the target count.
//!
//! A change of the target count alone grows the store at the tail or
//! shrinks it from the tail. Every change that bears on the placement of a
//! star invalidates the whole store: the store is cleared, the random
//! source is reseeded, input is blocked, and the population is generated
//! anew.

use crate::backdrop::{
    backdrop_outcome, backdrop_radius_ceiling, backdrop_star, backdrop_step_valid, BackdropModel,
    BACKDROP_RADIUS_FLOOR, BACKDROP_TAG,
};
use crate::body::PlacedBody;
use crate::classification::{StarData, COLOR_MARGIN};
use crate::events::{
    spawn_visuals, visuals_from, ChangeSeed, Command, RespawnStars, SpawnStars, SpawnVisual,
    StarCount, StarsAdded, StarsRemoved,
};
use crate::generator::{
    discards, generate_from_rolls, generate_star_positions_in_range, generated,
    lemma_generated_accounts, rolls_follow, rolls_used, span, RollModel, StarRoll,
};
use crate::placement::{Parameters, SpiralPoint, SpiralSample};
use crate::random::{SeededRandomSource, SEED_CEILING, SEED_FLOOR};
use crate::store::{all_valid, blocked_by, pairwise_clear, without_tail, PositionStore};
use vstd::prelude::*;

verus! {

/// Target count of a new configuration.
pub const DEFAULT_TOTAL_STARS: i64 = 30_000;

/// Exclusive upper bound of the target count. The target count is never
/// negative and always below this.
pub const TARGET_CEILING: i64 = 301_000;

/// The spawn index that a full generation starts at.
pub const FIRST_SPAWN_INDEX: i64 = 1;

/// A change of the target count by `delta` keeps it within the safe
/// bounds.
pub open spec fn delta_accepted(target: int, delta: int) -> bool {
    0 <= target + delta < TARGET_CEILING
}

/// The target count after a request to change it by `delta`: the sum if
/// that lies within the safe bounds, the old count if not.
pub open spec fn next_target(target: int, delta: int) -> int {
    if delta_accepted(target, delta) {
        target + delta
    } else {
        target
    }
}

/// Decides a request to change the target count by `delta`: the new count
/// if input is not blocked and the count stays within the safe bounds.
pub fn decide_count_delta(target: i64, blocked: bool, delta: i64) -> (next: Option<i64>)
    ensures
        next is Some <==> !blocked && delta_accepted(target as int, delta as int),
        next matches Some(count) ==> count == target + delta,
{
    if blocked {
        return None;
    }
    let potential: i128 = target as i128 + delta as i128;
    if 0 <= potential && potential < TARGET_CEILING as i128 {
        Some(potential as i64)
    } else {
        None
    }
}

/// What became of a request to change the target count.
#[derive(Clone, Copy, PartialEq, Eq, Debug, Structural)]
pub enum CountChange {
    /// The request was refused and nothing changed.
    Rejected,
    /// The target count rose or stayed; the last `added` bodies of the
    /// store are new.
    Added { was: StarsAdded, added: usize },
    /// The target count fell and the store lost its tail.
    Removed { was: StarsRemoved },
}

/// What a command did.
#[derive(Clone, Copy, PartialEq, Eq, Debug, Structural)]
pub enum Effect {
    /// Nothing: input is blocked, or the command could not be carried out.
    Ignored,
    /// Nothing here: the command is for the collaborators.
    Collaborator,
    /// The target count was asked to change.
    Count(CountChange),
    /// A rebuild has begun.
    Rebuild(ChangeSeed),
}

/// The configuration, with the random source and the position store that
/// it owns.
pub struct Masterik {
    total_stars: i64,
    parameters: Parameters,
    rng: SeededRandomSource,
    positions: PositionStore,
    block_input: bool,
}

impl Masterik {
    /// The target count.
    pub closed spec fn target(&self) -> int {
        self.total_stars as int
    }

    /// The shape parameters and the enabled size classes.
    pub closed spec fn params(&self) -> Parameters {
        self.parameters
    }

    /// The stored bodies, by spawn order.
    pub closed spec fn stored(&self) -> Seq<PlacedBody> {
        self.positions@
    }

    /// Input is blocked: a rebuild has begun and is not complete.
    pub closed spec fn blocked(&self) -> bool {
        self.block_input
    }

    /// The random source, with the place it has reached in its stream.
    pub closed spec fn source(&self) -> SeededRandomSource {
        self.rng
    }

    /// The seed of the random source.
    pub open spec fn seed_value(&self) -> u64 {
        self.source().seed_value()
    }

    /// The target count lies within the safe bounds, the parameters are
    /// valid, the stored bodies are valid and no two of them overlap, and
    /// the store holds no more bodies than the target count.
    pub open spec fn wf(&self) -> bool {
        &&& 0 <= self.target() < TARGET_CEILING
        &&& self.params().wf()
        &&& all_valid(self.stored())
        &&& pairwise_clear(self.stored())
        &&& self.stored().len() <= self.target()
    }

    /// What a request to change the target count does, whatever is drawn:
    /// `after` and `change` are a possible outcome of `request` on this
    /// configuration.
    ///
    /// The request is refused while input is blocked and when the new count
    /// would leave the safe bounds; nothing changes then. A fall removes as
    /// many bodies from the tail of the store as the count falls by and
    /// takes no draw. A rise leaves the store as generation of the spawn
    /// indices from the old count up to the new one leaves it under some
    /// rolls, one for each index, that follow from samples which `geometry`
    /// was asked about; a rise by nothing changes nothing.
    pub open spec fn count_request_outcome<F: Fn(SpiralSample) -> SpiralPoint>(
        &self,
        after: &Masterik,
        request: SpawnStars,
        table: StarData,
        geometry: &F,
        change: CountChange,
    ) -> bool {
        let delta = request.0 as int;
        if self.blocked() || !delta_accepted(self.target(), delta) {
            change is Rejected && *after == *self
        } else {
            &&& after.target() == next_target(self.target(), delta)
            &&& after.params() == self.params()
            &&& after.seed_value() == self.seed_value()
            &&& !after.blocked()
            &&& if delta < 0 {
                &&& change == (CountChange::Removed { was: StarsRemoved(self.target() as i64) })
                &&& after.stored() == without_tail(self.stored(), -delta)
                &&& after.source() == self.source()
            } else {
                &&& after.stored().len() >= self.stored().len()
                &&& change == (CountChange::Added {
                    was: StarsAdded(self.target() as i64),
                    added: (after.stored().len() - self.stored().len()) as usize,
                })
                &&& delta == 0 ==> *after == *self
                &&& exists|samples: Seq<SpiralSample>, rolls: Seq<RollModel>|
                    #![trigger rolls_follow(samples, rolls, self.target(), self.params(), geometry)]
                    rolls.len() == delta && rolls_follow(
                        samples,
                        rolls,
                        self.target(),
                        self.params(),
                        geometry,
                    ) && after.stored() == generated(
                        self.stored(),
                        self.target(),
                        self.params(),
                        table,
                        rolls,
                    )
            }
        }
    }

    /// What a request to change the target count does with the given
    /// rolls in place of draws: a rise generates as far as the rolls last,
    /// and the random source stays where it is.
    pub open spec fn count_request_result(
        &self,
        after: &Masterik,
        request: SpawnStars,
        table: StarData,
        rolls: Seq<StarRoll>,
        change: CountChange,
    ) -> bool {
        let delta = request.0 as int;
        if self.blocked() || !delta_accepted(self.target(), delta) {
            change is Rejected && *after == *self
        } else {
            &&& after.target() == next_target(self.target(), delta)
            &&& after.params() == self.params()
            &&& after.seed_value() == self.seed_value()
            &&& !after.blocked()
            &&& after.source() == self.source()
            &&& if delta < 0 {
                &&& change == (CountChange::Removed { was: StarsRemoved(self.target() as i64) })
                &&& after.stored() == without_tail(self.stored(), -delta)
            } else {
                &&& after.stored().len() >= self.stored().len()
                &&& change == (CountChange::Added {
                    was: StarsAdded(self.target() as i64),
                    added: (after.stored().len() - self.stored().len()) as usize,
                })
                &&& delta == 0 ==> *after == *self
                &&& after.stored() == generated(
                    self.stored(),
                    self.target(),
                    self.params(),
                    table,
                    rolls_used(rolls, self.target(), self.target() + delta),
                )
            }
        }
    }

    /// A default configuration whose seed is drawn from the stream of
    /// `timestamp`.
    pub fn new(timestamp: u64) -> (masterok: Masterik)
        ensures
            masterok.wf(),
            masterok.target() == DEFAULT_TOTAL_STARS,
            masterok.params() == Parameters::initial(),
            masterok.stored() == Seq::<PlacedBody>::empty(),
            !masterok.blocked(),
            SEED_FLOOR <= masterok.seed_value() < SEED_CEILING,
    {
        let mut rng: SeededRandomSource = SeededRandomSource::new(timestamp);
        rng.reseed_from_draw();
        Masterik {
            total_stars: DEFAULT_TOTAL_STARS,
            parameters: Parameters::default(),
            rng,
            positions: PositionStore::new(),
            block_input: false,
        }
    }

    /// A default configuration with the given seed.
    pub fn with_seed(seed: u64) -> (masterok: Masterik)
        ensures
            masterok.wf(),
            masterok.target() == DEFAULT_TOTAL_STARS,
            masterok.params() == Parameters::initial(),
            masterok.stored() == Seq::<PlacedBody>::empty(),
            !masterok.blocked(),
            masterok.seed_value() == seed,
    {
        Masterik {
            total_stars: DEFAULT_TOTAL_STARS,
            parameters: Parameters::default(),
            rng: SeededRandomSource::new(seed),
            positions: PositionStore::new(),
            block_input: false,
        }
    }

    /// The target count.
    pub fn current_target_count(&self) -> (target: i64)
        ensures
            target == self.target(),
    {
        self.total_stars
    }

    /// The shape parameters and the enabled size classes.
    pub fn current_parameters(&self) -> (params: Parameters)
        ensures
            params == self.params(),
    {
        self.parameters
    }

    /// Whether input is blocked.
    pub fn is_input_blocked(&self) -> (blocked: bool)
        ensures
            blocked == self.blocked(),
    {
        self.block_input
    }

    /// The seed of the random source.
    pub fn gen_seed(&self) -> (seed: u64)
        ensures
            seed == self.seed_value(),
    {
        self.rng.seed()
    }

    /// The position store.
    pub fn positions(&self) -> (store: &PositionStore)
        ensures
            store@ == self.stored(),
    {
        &self.positions
    }

    /// The visuals of the last `count` stored bodies, or of all of them
    /// when the store holds no more than `count`.
    pub fn newest_visuals(&self, count: usize, table: &StarData) -> (visuals: Vec<SpawnVisual>)
        requires
            self.wf(),
        ensures
            visuals@ == visuals_from(
                self.stored(),
                if count <= self.stored().len() {
                    self.stored().len() - count
                } else {
                    0
                },
                *table,
            ),
    {
        let len: usize = self.positions.len();
        let first: usize = if count <= len {
            len - count
        } else {
            0
        };
        spawn_visuals(self.positions.bodies(), first, table)
    }

    /// Tries the backdrop star of `step` against the stored bodies, drawing
    /// from the random source. The star is shown, not stored: nothing of
    /// the configuration changes but the place of the source in its stream.
    ///
    /// A step without a scatter gives nothing and takes no draw. Otherwise,
    /// whatever is drawn, the outcome is that of some roll whose draws lie
    /// in their ranges at `step`.
    pub fn backdrop_star(&mut self, step: i64, table: &StarData) -> (visual: Option<SpawnVisual>)
        ensures
            final(self).target() == old(self).target(),
            final(self).params() == old(self).params(),
            final(self).stored() == old(self).stored(),
            final(self).blocked() == old(self).blocked(),
            final(self).seed_value() == old(self).seed_value(),
            !backdrop_step_valid(step as int) ==> visual is None && *final(self) == *old(self),
            backdrop_step_valid(step as int) ==> exists|roll: BackdropModel|
                #![trigger roll.in_range(step as int, *table)]
                roll.in_range(step as int, *table) && visual == backdrop_outcome(
                    old(self).stored(),
                    *table,
                    roll,
                ),
            visual matches Some(v) ==> v.index == StarCount(BACKDROP_TAG)
                && BACKDROP_RADIUS_FLOOR <= v.radius < backdrop_radius_ceiling(*table)
                && !blocked_by(
                old(self).stored(),
                PlacedBody { x: v.x, y: v.y, radius: v.radius },
            ) && v.color == table.tint_of(v.radius + 2 * COLOR_MARGIN),
    {
        backdrop_star(step, &self.positions, table, &mut self.rng)
    }

    /// Draws a fresh seed from the random source, restarts the source at
    /// it, and clears the store. The settings stay as they are.
    pub fn partial_reset(&mut self)
        requires
            old(self).wf(),
        ensures
            final(self).wf(),
            final(self).stored() == Seq::<PlacedBody>::empty(),
            final(self).target() == old(self).target(),
            final(self).params() == old(self).params(),
            final(self).blocked() == old(self).blocked(),
            SEED_FLOOR <= final(self).seed_value() < SEED_CEILING,
    {
        self.rng.reseed_from_draw();
        self.positions.clear();
    }

    /// Begins a rebuild under the given seed: blocks input, restarts the
    /// random source at `seed`, and clears the store.
    pub fn reseed(&mut self, seed: u64) -> (event: ChangeSeed)
        requires
            old(self).wf(),
        ensures
            final(self).wf(),
            final(self).stored() == Seq::<PlacedBody>::empty(),
            final(self).target() == old(self).target(),
            final(self).params() == old(self).params(),
            final(self).blocked(),
            final(self).seed_value() == seed,
    {
        self.block_input = true;
        self.rng.reseed(seed);
        self.positions.clear();
        ChangeSeed
    }

    /// Begins a rebuild: blocks input, reseeds the random source from a
    /// draw, and clears the store.
    fn begin_rebuild(&mut self) -> (event: ChangeSeed)
        requires
            old(self).wf(),
        ensures
            final(self).wf(),
            final(self).stored() == Seq::<PlacedBody>::empty(),
            final(self).target() == old(self).target(),
            final(self).params() == old(self).params(),
            final(self).blocked(),
            SEED_FLOOR <= final(self).seed_value() < SEED_CEILING,
    {
        self.block_input = true;
        self.partial_reset();
        ChangeSeed
    }

    /// Completes a rebuild: clears the store, generates the spawn indices
    /// from the first one up to the target count, and unblocks input.
    /// Returns the number of bodies stored.
    ///
    /// Whatever is drawn, the store ends as generation from an empty store
    /// leaves it under some rolls, one for each index. Where the target
    /// count leaves no index to generate, no draw is taken.
    pub fn spawn_initial_stars<F: Fn(SpiralSample) -> SpiralPoint>(
        &mut self,
        _event: RespawnStars,
        table: &StarData,
        geometry: &F,
    ) -> (added: usize)
        requires
            old(self).wf(),
            forall|sample: SpiralSample| call_requires(geometry, (sample,)),
        ensures
            final(self).wf(),
            final(self).target() == old(self).target(),
            final(self).params() == old(self).params(),
            final(self).seed_value() == old(self).seed_value(),
            !final(self).blocked(),
            added == final(self).stored().len(),
            old(self).target() <= FIRST_SPAWN_INDEX ==> final(self).source() == old(self).source(),
            exists|samples: Seq<SpiralSample>, rolls: Seq<RollModel>|
                #![trigger rolls_follow(samples, rolls, FIRST_SPAWN_INDEX as int, final(self).params(), geometry)]
                rolls.len() == span(FIRST_SPAWN_INDEX as int, old(self).target()) && rolls_follow(
                    samples,
                    rolls,
                    FIRST_SPAWN_INDEX as int,
                    final(self).params(),
                    geometry,
                ) && final(self).stored() == generated(
                    Seq::<PlacedBody>::empty(),
                    FIRST_SPAWN_INDEX as int,
                    final(self).params(),
                    *table,
                    rolls,
                ),
    {
        self.positions.clear();
        let params: Parameters = self.parameters;
        let added: usize = generate_star_positions_in_range(
            &mut self.positions,
            &mut self.rng,
            FIRST_SPAWN_INDEX,
            self.total_stars,
            &params,
            table,
            geometry,
        );
        self.block_input = false;
        added
    }

    /// Carries out a request to change the target count, drawing what a
    /// rise needs from the random source.
    pub fn request_count_delta<F: Fn(SpiralSample) -> SpiralPoint>(
        &mut self,
        request: SpawnStars,
        table: &StarData,
        geometry: &F,
    ) -> (change: CountChange)
        requires
            old(self).wf(),
            forall|sample: SpiralSample| call_requires(geometry, (sample,)),
        ensures
            final(self).wf(),
            old(self).count_request_outcome(final(self), request, *table, geometry, change),
    {
        let previous: i64 = self.total_stars;
        let target: i64 = match decide_count_delta(previous, self.block_input, request.0) {
            Some(target) => target,
            None => {
                return CountChange::Rejected;
            },
        };
        self.total_stars = target;
        if request.0 < 0 {
            self.positions.remove_tail((previous - target) as usize);
            CountChange::Removed { was: StarsRemoved(previous) }
        } else {
            let params: Parameters = self.parameters;
            let added: usize = generate_star_positions_in_range(
                &mut self.positions,
                &mut self.rng,
                previous,
                target,
                &params,
                table,
                geometry,
            );
            CountChange::Added { was: StarsAdded(previous), added }
        }
    }

    /// Completes a rebuild with the given rolls in place of draws: clears
    /// the store, generates the spawn indices from the first one up to the
    /// target count as far as the rolls last, and unblocks input. Returns
    /// the number of bodies stored.
    pub fn spawn_initial_stars_from(
        &mut self,
        _event: RespawnStars,
        table: &StarData,
        rolls: &Vec<StarRoll>,
    ) -> (added: usize)
        requires
            old(self).wf(),
        ensures
            final(self).wf(),
            final(self).target() == old(self).target(),
            final(self).params() == old(self).params(),
            final(self).source() == old(self).source(),
            !final(self).blocked(),
            added == final(self).stored().len(),
            final(self).stored() == generated(
                Seq::<PlacedBody>::empty(),
                FIRST_SPAWN_INDEX as int,
                old(self).params(),
                *table,
                rolls_used(rolls@, FIRST_SPAWN_INDEX as int, old(self).target()),
            ),
    {
        self.positions.clear();
        let params: Parameters = self.parameters;
        let added: usize = generate_from_rolls(
            &mut self.positions,
            FIRST_SPAWN_INDEX,
            self.total_stars,
            &params,
            table,
            rolls,
        );
        self.block_input = false;
        added
    }

    /// Carries out a request to change the target count with the given
    /// rolls in place of draws.
    pub fn request_count_delta_from(
        &mut self,
        request: SpawnStars,
        table: &StarData,
        rolls: &Vec<StarRoll>,
    ) -> (change: CountChange)
        requires
            old(self).wf(),
        ensures
            final(self).wf(),
            old(self).count_request_result(final(self), request, *table, rolls@, change),
    {
        let previous: i64 = self.total_stars;
        let target: i64 = match decide_count_delta(previous, self.block_input, request.0) {
            Some(target) => target,
            None => {
                return CountChange::Rejected;
            },
        };
        self.total_stars = target;
        if request.0 < 0 {
            self.positions.remove_tail((previous - target) as usize);
            CountChange::Removed { was: StarsRemoved(previous) }
        } else {
            let params: Parameters = self.parameters;
            let added: usize = generate_from_rolls(
                &mut self.positions,
                previous,
                target,
                &params,
                table,
                rolls,
            );
            CountChange::Added { was: StarsAdded(previous), added }
        }
    }

    /// Carries out a command of the input layer.
    ///
    /// While input is blocked every command is ignored. A command for the
    /// collaborators changes nothing. A request for a count delta is
    /// carried out as such. Every other command bears on placement: if it
    /// changes anything, a rebuild begins.
    pub fn handle_command<F: Fn(SpiralSample) -> SpiralPoint>(
        &mut self,
        command: Command,
        table: &StarData,
        geometry: &F,
    ) -> (effect: Effect)
        requires
            old(self).wf(),
            forall|sample: SpiralSample| call_requires(geometry, (sample,)),
        ensures
            final(self).wf(),
            old(self).blocked() ==> effect is Ignored && *final(self) == *old(self),
            !old(self).blocked() && command.for_collaborator() ==> effect is Collaborator
                && *final(self) == *old(self),
            !old(self).blocked() ==> (command matches Command::RequestCountDelta(delta) ==> (effect
                matches Effect::Count(change) && old(self).count_request_outcome(
                final(self),
                SpawnStars(delta),
                *table,
                geometry,
                change,
            ))),
            !old(self).blocked() && rebuilds(command, old(self).params()) ==> effect
                == Effect::Rebuild(ChangeSeed) && final(self).blocked() && final(self).stored()
                == Seq::<PlacedBody>::empty() && final(self).params() == params_after(
                command,
                old(self).params(),
            ) && final(self).target() == (if command is ResetToDefault {
                DEFAULT_TOTAL_STARS as int
            } else {
                old(self).target()
            }) && SEED_FLOOR <= final(self).seed_value() < SEED_CEILING,
            !old(self).blocked() && command is AdjustParameter && !rebuilds(
                command,
                old(self).params(),
            ) ==> effect is Ignored && *final(self) == *old(self),
    {
        if self.block_input {
            return Effect::Ignored;
        }
        match command {
            Command::MoveCamera(_) => Effect::Collaborator,
            Command::Zoom(_) => Effect::Collaborator,
            Command::Quit => Effect::Collaborator,
            Command::RequestCountDelta(delta) => Effect::Count(
                self.request_count_delta(SpawnStars(delta), table, geometry),
            ),
            Command::ToggleCategory(class) => {
                self.parameters.enabled.toggle(class);
                Effect::Rebuild(self.begin_rebuild())
            },
            Command::AdjustParameter(parameter, sign) => {
                if self.parameters.adjust(parameter, sign) {
                    Effect::Rebuild(self.begin_rebuild())
                } else {
                    Effect::Ignored
                }
            },
            Command::ChangeSeed => Effect::Rebuild(self.begin_rebuild()),
            Command::ResetToDefault(timestamp) => {
                *self = Masterik::new(timestamp);
                Effect::Rebuild(self.begin_rebuild())
            },
        }
    }

    /// Carries out the settings among the commands of one frame, in order,
    /// and begins one rebuild if any of them changed anything.
    ///
    /// While input is blocked nothing happens. Commands that do not bear on
    /// placement are passed over. If no command changes anything, the
    /// configuration stays as it is.
    pub fn apply_settings(&mut self, commands: &Vec<Command>) -> (event: Option<ChangeSeed>)
        requires
            old(self).wf(),
        ensures
            final(self).wf(),
            event is Some <==> !old(self).blocked() && frame_rebuilds(
                commands@,
                old(self).params(),
            ),
            event is None ==> *final(self) == *old(self),
            event is Some ==> final(self).blocked() && final(self).stored() == Seq::<
                PlacedBody,
            >::empty() && final(self).params() == frame_params(commands@, old(self).params())
                && final(self).target() == frame_target(commands@, old(self).target())
                && SEED_FLOOR <= final(self).seed_value() < SEED_CEILING,
    {
        if self.block_input {
            return None;
        }
        let mut changed: bool = false;
        let mut done: usize = 0;
        proof {
            assert(commands@.subrange(0, 0) =~= Seq::<Command>::empty());
        }
        while done < commands.len()
            invariant
                done <= commands.len(),
                self.wf(),
                !self.blocked(),
                changed == frame_rebuilds(commands@.subrange(0, done as int), old(self).params()),
                self.params() == frame_params(commands@.subrange(0, done as int), old(self).params()),
                self.target() == frame_target(commands@.subrange(0, done as int), old(self).target()),
                !changed ==> *self == *old(self),
            decreases commands.len() - done,
        {
            proof {
                let longer = commands@.subrange(0, done as int + 1);
                assert(longer.drop_last() =~= commands@.subrange(0, done as int));
                assert(longer.last() == commands@[done as int]);
            }
            match commands[done] {
                Command::ToggleCategory(class) => {
                    self.parameters.enabled.toggle(class);
                    changed = true;
                },
                Command::AdjustParameter(parameter, sign) => {
                    if self.parameters.adjust(parameter, sign) {
                        changed = true;
                    }
                },
                Command::ChangeSeed => {
                    changed = true;
                },
                Command::ResetToDefault(timestamp) => {
                    *self = Masterik::new(timestamp);
                    changed = true;
                },
                _ => {},
            }
            done += 1;
        }
        proof {
            assert(commands@.subrange(0, commands@.len() as int) =~= commands@);
        }
        if changed {
            Some(self.begin_rebuild())
        } else {
            None
        }
    }
}

/// The command bears on placement and changes something under `params`:
/// it invalidates the store.
pub open spec fn rebuilds(command: Command, params: Parameters) -> bool {
    match command {
        Command::ToggleCategory(_) => true,
        Command::AdjustParameter(parameter, sign) => params.adjustable(parameter, sign),
        Command::ChangeSeed => true,
        Command::ResetToDefault(_) => true,
        _ => false,
    }
}

/// The parameters that `command` leaves behind when it starts from
/// `params`.
pub open spec fn params_after(command: Command, params: Parameters) -> Parameters {
    match command {
        Command::ToggleCategory(class) => Parameters {
            enabled: params.enabled.flipped(class),
            ..params
        },
        Command::AdjustParameter(parameter, sign) => if params.adjustable(parameter, sign) {
            params.adjusted(parameter, sign)
        } else {
            params
        },
        Command::ResetToDefault(_) => Parameters::initial(),
        _ => params,
    }
}

/// The parameters that the settings among `commands` leave behind, taken
/// in order, when they start from `params`.
pub open spec fn frame_params(commands: Seq<Command>, params: Parameters) -> Parameters
    decreases commands.len(),
{
    if commands.len() == 0 {
        params
    } else {
        params_after(commands.last(), frame_params(commands.drop_last(), params))
    }
}

/// Some command of `commands` bears on placement and changes something at
/// its turn: the frame invalidates the store.
pub open spec fn frame_rebuilds(commands: Seq<Command>, params: Parameters) -> bool
    decreases commands.len(),
{
    if commands.len() == 0 {
        false
    } else {
        frame_rebuilds(commands.drop_last(), params) || rebuilds(
            commands.last(),
            frame_params(commands.drop_last(), params),
        )
    }
}

/// The target count that `commands` leave behind: the default if a reset
/// is among them, the old count if not.
pub open spec fn frame_target(commands: Seq<Command>, target: int) -> int
    decreases commands.len(),
{
    if commands.len() == 0 {
        target
    } else if commands.last() is ResetToDefault {
        DEFAULT_TOTAL_STARS as int
    } else {
        frame_target(commands.drop_last(), target)
    }
}

/// A well-formed configuration never stores more bodies than the target
/// count, and no two stored bodies overlap.
pub proof fn lemma_store_within_target(masterok: Masterik)
    requires
        masterok.wf(),
    ensures
        masterok.stored().len() <= masterok.target(),
        pairwise_clear(masterok.stored()),
{
}

/// A full generation covers the spawn indices from the first one up to the
/// target count, so under a positive target count it stores one body less
/// than the target count when no candidate is given up, and one less for
/// each discard. Under a target count of zero it stores nothing.
pub proof fn lemma_rebuild_accounts(
    target: int,
    params: Parameters,
    table: StarData,
    rolls: Seq<RollModel>,
)
    requires
        rolls.len() == span(FIRST_SPAWN_INDEX as int, target),
    ensures
        generated(
            Seq::<PlacedBody>::empty(),
            FIRST_SPAWN_INDEX as int,
            params,
            table,
            rolls,
        ).len() + discards(
            Seq::<PlacedBody>::empty(),
            FIRST_SPAWN_INDEX as int,
            params,
            table,
            rolls,
        ) == (if target >= 1 {
            target - 1
        } else {
            0
        }),
{
    lemma_generated_accounts(
        Seq::<PlacedBody>::empty(),
        FIRST_SPAWN_INDEX as int,
        params,
        table,
        rolls,
    );
}

/// A change of the target count that is accepted is undone by the opposite
/// change, which is accepted too: the target count is back where it was.
pub proof fn lemma_delta_round_trip(target: int, delta: int)
    requires
        0 <= target < TARGET_CEILING,
        delta_accepted(target, delta),
    ensures
        delta_accepted(next_target(target, delta), -delta),
        next_target(next_target(target, delta), -delta) == target,
{
}

} // verus!
