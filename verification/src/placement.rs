//! The spiral placement generator: from a spawn index, the shape
//! parameters and the random draws of one star to the candidate that the
//! overlap resolver is asked to place.
//!
//! The curve itself is not drawn here. The generator hands a sample of the
//! spiral to a geometry function and takes a point back; everything else,
//! from the jitter to the choice of the arm, is decided here.

use crate::body::{clamp_sum, clamp_to_world, PlacedBody, WORLD_LIMIT};
use crate::classification::{EnabledClasses, StarData};
use vstd::prelude::*;

verus! {

/// Most arms a spiral may have.
pub const MAX_SPIRAL_ARMS: i64 = 4;

/// Smallest radius jitter, in thousandths.
pub const RADIUS_JITTER_FLOOR: i64 = 2_000;

/// Half-width of the window from which a star's positional jitter is
/// drawn on each axis.
pub const POSITION_JITTER: i64 = 20_000;

/// The parameters that shape the spiral and decide the size classes.
///
/// The angle modifier counts billionths and the radius modifier counts
/// thousandths; the distance modifier is a whole factor.
#[derive(Clone, Copy, PartialEq, Eq, Debug, Structural)]
pub struct Parameters {
    pub spiral_arm_count: i64,
    pub angle_mod: i64,
    pub radius_mod: i64,
    pub distance_mod: i64,
    pub enabled: EnabledClasses,
}

impl Parameters {
    /// The arm count is in range, and each modifier is large enough to draw
    /// a jitter below it.
    pub open spec fn wf(self) -> bool {
        &&& 1 <= self.spiral_arm_count <= MAX_SPIRAL_ARMS
        &&& self.angle_mod > 0
        &&& self.radius_mod > RADIUS_JITTER_FLOOR
        &&& self.distance_mod > 0
    }

    /// Tests the validity of the parameters.
    pub fn is_valid(&self) -> (ok: bool)
        ensures
            ok == self.wf(),
    {
        1 <= self.spiral_arm_count && self.spiral_arm_count <= MAX_SPIRAL_ARMS && self.angle_mod
            > 0 && self.radius_mod > RADIUS_JITTER_FLOOR && self.distance_mod > 0
    }
}

/// What the geometry function is told of one star: where along its arm it
/// stands, the two jitters drawn for it, and the modifiers that scale the
/// curve.
#[derive(Clone, Copy, PartialEq, Eq, Debug, Structural)]
pub struct SpiralSample {
    pub arm_index: i64,
    pub angle_jitter: i64,
    pub radius_jitter: i64,
    pub radius_mod: i64,
    pub distance_mod: i64,
}

impl SpiralSample {
    /// The sample belongs to spawn index `index` under `params`: the arm
    /// index is the scaled spawn index, each jitter lies below its
    /// modifier, and the modifiers are those of `params`.
    pub open spec fn fits(self, index: int, params: Parameters) -> bool {
        &&& self.arm_index == scaled_index(index, params.spiral_arm_count as int)
        &&& 0 <= self.angle_jitter < params.angle_mod
        &&& RADIUS_JITTER_FLOOR <= self.radius_jitter < params.radius_mod
        &&& self.radius_mod == params.radius_mod
        &&& self.distance_mod == params.distance_mod
    }
}

/// A point of the spiral, in whole world units.
#[derive(Clone, Copy, PartialEq, Eq, Debug, Structural)]
pub struct SpiralPoint {
    pub x: i64,
    pub y: i64,
}

/// The turn that fans a point into its arm.
#[derive(Clone, Copy, PartialEq, Eq, Debug, Structural)]
pub enum ArmTransform {
    /// The point stays where it is.
    Keep,
    /// A quarter turn: `(x, y)` goes to `(-y, x)`.
    QuarterTurn,
    /// A quarter turn the other way: `(x, y)` goes to `(y, -x)`.
    BackTurn,
    /// A reflection through the centre: `(x, y)` goes to `(-x, -y)`.
    Reflect,
}

/// The spawn index divided by the arm count, rounded towards zero: stars
/// that are spawned in turn for the arms stand equally far along them.
pub open spec fn scaled_index(index: int, arms: int) -> int {
    if index >= 0 {
        index / arms
    } else {
        -((-index) / arms)
    }
}

/// The turn for a star at `arm_index` along its arm when the spiral has
/// `arms` arms.
///
/// Every fifth index takes a quarter turn once there are four arms, every
/// third a quarter turn the other way once there are three, every second a
/// reflection once there are two. The first tier that matches decides; an
/// index that no tier takes keeps its point.
pub open spec fn transform_for(arm_index: int, arms: int) -> ArmTransform {
    if arm_index % 5 == 0 && arms > 3 {
        ArmTransform::QuarterTurn
    } else if arm_index % 3 == 0 && arms > 2 {
        ArmTransform::BackTurn
    } else if arm_index % 2 == 0 && arms > 1 {
        ArmTransform::Reflect
    } else {
        ArmTransform::Keep
    }
}

/// The point `(x, y)` after `transform`.
pub open spec fn transformed(transform: ArmTransform, x: int, y: int) -> (int, int) {
    match transform {
        ArmTransform::Keep => (x, y),
        ArmTransform::QuarterTurn => (-y, x),
        ArmTransform::BackTurn => (y, -x),
        ArmTransform::Reflect => (-x, -y),
    }
}

/// The candidate for spawn index `index`: the spiral point moved by the
/// positional jitter, clamped to the world and turned into its arm, with
/// the radius that the classification draw resolves to.
pub open spec fn candidate_for(
    index: int,
    params: Parameters,
    table: StarData,
    point: SpiralPoint,
    class_draw: int,
    offset_x: int,
    offset_y: int,
) -> PlacedBody {
    let arm_index = scaled_index(index, params.spiral_arm_count as int);
    let x = clamp_to_world(point.x + offset_x);
    let y = clamp_to_world(point.y + offset_y);
    let turned = transformed(transform_for(arm_index, params.spiral_arm_count as int), x as int, y as int);
    PlacedBody {
        x: turned.0 as i64,
        y: turned.1 as i64,
        radius: table.resolved_radius(class_draw, params.enabled),
    }
}

/// Scales a spawn index by the arm count.
pub fn arm_index_of(index: i64, arms: i64) -> (arm_index: i64)
    requires
        arms >= 1,
    ensures
        arm_index == scaled_index(index as int, arms as int),
{
    index / arms
}

/// Chooses the turn for a star at `arm_index` along its arm.
pub fn arm_transform(arm_index: i64, arms: i64) -> (transform: ArmTransform)
    ensures
        transform == transform_for(arm_index as int, arms as int),
{
    if arm_index % 5 == 0 && arms > 3 {
        ArmTransform::QuarterTurn
    } else if arm_index % 3 == 0 && arms > 2 {
        ArmTransform::BackTurn
    } else if arm_index % 2 == 0 && arms > 1 {
        ArmTransform::Reflect
    } else {
        ArmTransform::Keep
    }
}

/// Turns the point `(x, y)` by `transform` and clamps it to the world. A
/// point of the world stays in the world under every turn.
pub fn apply_transform(transform: ArmTransform, x: i64, y: i64) -> (turned: (i64, i64))
    ensures
        turned.0 == clamp_to_world(transformed(transform, x as int, y as int).0),
        turned.1 == clamp_to_world(transformed(transform, x as int, y as int).1),
        -WORLD_LIMIT <= turned.0 <= WORLD_LIMIT,
        -WORLD_LIMIT <= turned.1 <= WORLD_LIMIT,
{
    let cx: i64 = clamp_sum(x, 0);
    let cy: i64 = clamp_sum(y, 0);
    match transform {
        ArmTransform::Keep => (cx, cy),
        ArmTransform::QuarterTurn => (-cy, cx),
        ArmTransform::BackTurn => (cy, -cx),
        ArmTransform::Reflect => (-cx, -cy),
    }
}

/// Builds the candidate for spawn index `index` from the spiral point and
/// the draws of the star.
pub fn star_candidate(
    index: i64,
    params: &Parameters,
    table: &StarData,
    point: SpiralPoint,
    class_draw: i64,
    offset_x: i64,
    offset_y: i64,
) -> (candidate: PlacedBody)
    requires
        params.wf(),
    ensures
        candidate == candidate_for(
            index as int,
            *params,
            *table,
            point,
            class_draw as int,
            offset_x as int,
            offset_y as int,
        ),
        -WORLD_LIMIT <= candidate.x <= WORLD_LIMIT,
        -WORLD_LIMIT <= candidate.y <= WORLD_LIMIT,
{
    let arms: i64 = params.spiral_arm_count;
    let arm_index: i64 = arm_index_of(index, arms);
    let x: i64 = clamp_sum(point.x, offset_x);
    let y: i64 = clamp_sum(point.y, offset_y);
    let radius: u32 = table.spawning_radius(class_draw, &params.enabled);
    let turned: (i64, i64) = apply_transform(arm_transform(arm_index, arms), x, y);
    PlacedBody { x: turned.0, y: turned.1, radius }
}

} // verus!
