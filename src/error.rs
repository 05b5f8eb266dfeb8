//! The ways building a scene can fail.
use vstd::prelude::*;

verus! {

/// A scene was asked for with an identifier outside the catalogue.
#[derive(Clone, Copy, Debug, PartialEq, Eq, Structural)]
pub enum LibError {
    /// No behaviour has this identifier.
    UnknownBehavior(u8),
    /// No placement is defined for this number of ants.
    UnknownAgentCount(u8),
}

} // verus!
