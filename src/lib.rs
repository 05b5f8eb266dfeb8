//! Generalised Langton's-ant automata on a toroidal grid.
//!
//! One or more ants walk over a grid whose cells each hold a condition index.
//! On every tick each ant, in a fixed order, reads the condition under it, turns
//! as the behaviour table says for that condition, advances the cell to the next
//! condition and steps forward, wrapping around the edges of the grid.
pub mod loop_value;
pub mod geometry;
pub mod error;
pub mod behavior;
pub mod model;
pub mod scene;
pub mod laws;

pub use loop_value::LoopValue;
pub use error::LibError;
pub use scene::{find_ants, Ant, Field, Scene};
pub use behavior::{find_behavior, Behavior, Color, Pattern, State};
pub use geometry::{Direction, Position, Vector, XPositionValue, XVectorValue, YPositionValue, YVectorValue};
