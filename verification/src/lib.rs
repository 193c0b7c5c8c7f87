//! Procedural placement of a resizable population of stars on a spiral:
//! weighted size classes, overlap resolution against the bodies already
//! placed, and reconciliation of the stored population with a target count.
//!
//! Positions are whole world units and radii are whole numbers. The curve
//! of the spiral is not computed here: generation hands a sample of the
//! curve to a geometry function of the caller and takes a point back.

pub mod backdrop;
pub mod body;
pub mod classification;
pub mod config;
pub mod events;
pub mod generator;
pub mod overlap;
pub mod placement;
pub mod random;
pub mod reconciler;
pub mod store;

pub use body::PlacedBody;
pub use classification::StarData;
pub use events::{ChangeSeed, RespawnStars, SpawnStars, StarCount, StarsAdded, StarsRemoved};
pub use random::SeededRandomSource;
pub use reconciler::Masterik;
pub use store::PositionStore;
