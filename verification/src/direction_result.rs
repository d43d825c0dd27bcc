use crate::direction::Direction;
use crate::rotation_direction::RotationDirection;
use vstd::prelude::*;

verus! {

/// What a classifier found out about the way a gesture moved.
#[derive(Debug, Clone, Copy, PartialEq, Eq, Structural)]
pub enum DirectionResult {
    /// The gesture turned in a circle, in this sense.
    Circular(RotationDirection),
    /// The gesture was dragged towards this compass direction.
    Drag(Direction),
    /// Nothing was found out.
    Unknown,
}

} // verus!
