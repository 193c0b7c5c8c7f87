//! What passes between the reconciler and its collaborators: the commands
//! that the input layer delivers, the events that a change of the
//! population raises, and the notifications for the render layer.

use crate::body::PlacedBody;
use crate::classification::{tint, StarClass, StarColor, StarData, COLOR_MARGIN};
use vstd::prelude::*;

verus! {

/// A request to change the target count by the given amount.
#[derive(Clone, Copy, PartialEq, Eq, Debug, Structural)]
pub struct SpawnStars(pub i64);

/// The target count fell; the event holds the count before the change.
#[derive(Clone, Copy, PartialEq, Eq, Debug, Structural)]
pub struct StarsRemoved(pub i64);

/// The target count rose; the event holds the count before the change.
#[derive(Clone, Copy, PartialEq, Eq, Debug, Structural)]
pub struct StarsAdded(pub i64);

/// A rebuild has begun: every visual is to be destroyed.
#[derive(Clone, Copy, PartialEq, Eq, Debug, Structural)]
pub struct ChangeSeed;

/// The visuals are gone: the population is to be generated anew.
#[derive(Clone, Copy, PartialEq, Eq, Debug, Structural)]
pub struct RespawnStars;

/// The tag of a visual: the place of its body in spawn order, counted
/// from one.
#[derive(Clone, Copy, PartialEq, Eq, Debug, Structural)]
pub struct StarCount(pub i64);

impl StarCount {
    /// The tag lies beyond `target`: its visual goes when the target count
    /// falls to `target`.
    pub open spec fn beyond(self, target: int) -> bool {
        self.0 > target
    }

    /// Tests whether the visual with this tag goes when the target count
    /// falls to `target`.
    pub fn is_beyond(&self, target: i64) -> (gone: bool)
        ensures
            gone == self.beyond(target as int),
    {
        self.0 > target
    }
}

/// A way to move the camera.
#[derive(Clone, Copy, PartialEq, Eq, Debug, Structural)]
pub enum Direction {
    Up,
    Down,
    Left,
    Right,
}

/// A way to zoom the camera.
#[derive(Clone, Copy, PartialEq, Eq, Debug, Structural)]
pub enum Zoom {
    In,
    Out,
}

/// A shape parameter that the input layer can adjust.
#[derive(Clone, Copy, PartialEq, Eq, Debug, Structural)]
pub enum Parameter {
    Angle,
    Radius,
    Distance,
    Arms,
}

/// The direction of an adjustment.
#[derive(Clone, Copy, PartialEq, Eq, Debug, Structural)]
pub enum Sign {
    Increase,
    Decrease,
}

/// A command of the input layer.
#[derive(Clone, Copy, PartialEq, Eq, Debug, Structural)]
pub enum Command {
    MoveCamera(Direction),
    Zoom(Zoom),
    ToggleCategory(StarClass),
    AdjustParameter(Parameter, Sign),
    RequestCountDelta(i64),
    ChangeSeed,
    /// Back to the default settings, seeded from the given time stamp.
    ResetToDefault(u64),
    Quit,
}

impl Command {
    /// The command is none of the core's business: the camera and the end
    /// of the program belong to the collaborators.
    pub open spec fn for_collaborator(self) -> bool {
        self is MoveCamera || self is Zoom || self is Quit
    }
}

/// The visual of one stored body, for the render layer.
#[derive(Clone, Copy, PartialEq, Eq, Debug, Structural)]
pub struct SpawnVisual {
    pub index: StarCount,
    pub x: i64,
    pub y: i64,
    pub radius: u32,
    pub color: StarColor,
}

/// The visual of the body at place `place` of `bodies`: tagged with the
/// place counted from one, and coloured by the radius raised by the colour
/// margin.
pub open spec fn visual_of(bodies: Seq<PlacedBody>, place: int, table: StarData) -> SpawnVisual {
    SpawnVisual {
        index: StarCount((place + 1) as i64),
        x: bodies[place].x,
        y: bodies[place].y,
        radius: bodies[place].radius,
        color: table.color_of(bodies[place].radius + COLOR_MARGIN),
    }
}

/// The visuals of the bodies of `bodies` from place `first` on, in spawn
/// order.
pub open spec fn visuals_from(bodies: Seq<PlacedBody>, first: int, table: StarData) -> Seq<
    SpawnVisual,
> {
    Seq::new(
        if first < bodies.len() {
            (bodies.len() - first) as nat
        } else {
            0
        },
        |k: int| visual_of(bodies, first + k, table),
    )
}

/// Builds the visuals of the bodies of `bodies` from place `first` on.
pub fn spawn_visuals(bodies: &Vec<PlacedBody>, first: usize, table: &StarData) -> (visuals: Vec<
    SpawnVisual,
>)
    requires
        bodies.len() < i64::MAX,
    ensures
        visuals@ == visuals_from(bodies@, first as int, *table),
{
    let mut visuals: Vec<SpawnVisual> = Vec::new();
    let mut place: usize = first;
    while place < bodies.len()
        invariant
            bodies.len() < i64::MAX,
            first <= place,
            place <= bodies.len() || place == first,
            visuals@.len() == (if place <= bodies.len() {
                place - first
            } else {
                0
            }),
            forall|k: int|
                0 <= k < visuals@.len() ==> visuals@[k] == visual_of(bodies@, first + k, *table),
        decreases bodies.len() - place,
    {
        let body: PlacedBody = bodies[place];
        let color: StarColor = tint(
            body.radius as u64 + COLOR_MARGIN as u64 + COLOR_MARGIN as u64,
            table,
        );
        visuals.push(
            SpawnVisual {
                index: StarCount((place + 1) as i64),
                x: body.x,
                y: body.y,
                radius: body.radius,
                color,
            },
        );
        place += 1;
    }
    proof {
        assert(visuals@ =~= visuals_from(bodies@, first as int, *table));
    }
    visuals
}

} // verus!
