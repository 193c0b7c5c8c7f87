//! A placed body: a circle at whole-unit world coordinates.

use vstd::prelude::*;

verus! {

/// Largest magnitude of a world coordinate. Positions are clamped to the
/// square that this bounds.
pub const WORLD_LIMIT: i64 = 1_000_000_000_000;

/// `value` pulled into the world.
pub open spec fn clamp_to_world(value: int) -> i64 {
    if value < -WORLD_LIMIT {
        (-WORLD_LIMIT) as i64
    } else if value > WORLD_LIMIT {
        WORLD_LIMIT
    } else {
        value as i64
    }
}

/// One star of the population.
#[derive(Clone, Copy, PartialEq, Eq, Debug, Structural)]
pub struct PlacedBody {
    pub x: i64,
    pub y: i64,
    pub radius: u32,
}

impl PlacedBody {
    /// The body has a positive radius and lies in the world.
    pub open spec fn wf(self) -> bool {
        &&& self.radius > 0
        &&& -WORLD_LIMIT <= self.x <= WORLD_LIMIT
        &&& -WORLD_LIMIT <= self.y <= WORLD_LIMIT
    }

    /// Square of the distance between the two centres.
    pub open spec fn distance_squared(self, other: PlacedBody) -> int {
        (self.x - other.x) * (self.x - other.x) + (self.y - other.y) * (self.y - other.y)
    }

    /// Square of the sum of the two radii.
    pub open spec fn reach_squared(self, other: PlacedBody) -> int {
        (self.radius + other.radius) * (self.radius + other.radius)
    }

    /// The two circles overlap: the centres are closer than the radii
    /// together reach.
    pub open spec fn overlaps(self, other: PlacedBody) -> bool {
        self.distance_squared(other) < self.reach_squared(other)
    }

    /// The body moved by `(dx, dy)` and clamped to the world.
    pub open spec fn shifted(self, dx: int, dy: int) -> PlacedBody {
        PlacedBody {
            x: clamp_to_world(self.x + dx),
            y: clamp_to_world(self.y + dy),
            radius: self.radius,
        }
    }

    /// A body of `radius` at `(x, y)` clamped to the world.
    pub fn new(x: i64, y: i64, radius: u32) -> (body: PlacedBody)
        ensures
            body == (PlacedBody { x: clamp_to_world(x as int), y: clamp_to_world(y as int), radius }),
            radius > 0 ==> body.wf(),
    {
        PlacedBody { x: clamp_sum(x, 0), y: clamp_sum(y, 0), radius }
    }

    /// Tests the validity of the body.
    pub fn is_valid(&self) -> (ok: bool)
        ensures
            ok == self.wf(),
    {
        self.radius > 0 && -WORLD_LIMIT <= self.x && self.x <= WORLD_LIMIT && -WORLD_LIMIT
            <= self.y && self.y <= WORLD_LIMIT
    }

    /// Tests whether the two circles overlap.
    pub fn collides(&self, other: &PlacedBody) -> (hit: bool)
        ensures
            hit == self.overlaps(*other),
    {
        let dx: i128 = self.x as i128 - other.x as i128;
        let dy: i128 = self.y as i128 - other.y as i128;
        let reach: i128 = self.radius as i128 + other.radius as i128;
        if dx >= reach || dx <= -reach {
            proof {
                lemma_far_on_one_axis(dx as int, dy as int, reach as int);
            }
            return false;
        }
        if dy >= reach || dy <= -reach {
            proof {
                lemma_far_on_one_axis(dy as int, dx as int, reach as int);
            }
            return false;
        }
        proof {
            lemma_square_bound(dx as int, reach as int);
            lemma_square_bound(dy as int, reach as int);
            lemma_square_bound(reach as int, 0x2_0000_0000);
            assert(0x2_0000_0000int * 0x2_0000_0000int == 0x4_0000_0000_0000_0000int);
        }
        dx * dx + dy * dy < reach * reach
    }

    /// Moves the body by `(dx, dy)` and clamps it to the world.
    pub fn nudged(&self, dx: i64, dy: i64) -> (moved: PlacedBody)
        ensures
            moved == self.shifted(dx as int, dy as int),
            self.wf() ==> moved.wf(),
    {
        PlacedBody { x: clamp_sum(self.x, dx), y: clamp_sum(self.y, dy), radius: self.radius }
    }
}

/// Adds two coordinates and pulls the sum into the world.
pub fn clamp_sum(a: i64, b: i64) -> (clamped: i64)
    ensures
        clamped == clamp_to_world(a + b),
        -WORLD_LIMIT <= clamped <= WORLD_LIMIT,
{
    let sum: i128 = a as i128 + b as i128;
    if sum < -(WORLD_LIMIT as i128) {
        -WORLD_LIMIT
    } else if sum > WORLD_LIMIT as i128 {
        WORLD_LIMIT
    } else {
        sum as i64
    }
}

/// Centres that are a full reach apart along one axis do not overlap.
proof fn lemma_far_on_one_axis(along: int, across: int, reach: int)
    by (nonlinear_arith)
    requires
        reach >= 0,
        along >= reach || along <= -reach,
    ensures
        along * along + across * across >= reach * reach,
{
}

/// A value strictly inside `(-bound, bound)` has a square below that of
/// the bound.
proof fn lemma_square_bound(value: int, bound: int)
    by (nonlinear_arith)
    requires
        -bound < value < bound,
    ensures
        0 <= value * value < bound * bound,
{
}

/// Overlap does not depend on the order of the two bodies.
pub proof fn lemma_overlap_symmetric(a: PlacedBody, b: PlacedBody)
    ensures
        a.overlaps(b) == b.overlaps(a),
{
    assert((a.x - b.x) * (a.x - b.x) == (b.x - a.x) * (b.x - a.x)) by (nonlinear_arith);
    assert((a.y - b.y) * (a.y - b.y) == (b.y - a.y) * (b.y - a.y)) by (nonlinear_arith);
    assert((a.radius + b.radius) * (a.radius + b.radius) == (b.radius + a.radius) * (b.radius
        + a.radius)) by (nonlinear_arith);
}

} // verus!
