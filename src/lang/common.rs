use vstd::prelude::*;

verus! {

/// A direction of camera travel, relative to where the camera looks.
#[derive(Debug, Clone, Copy, PartialEq, Eq, Structural)]
pub enum Direction {
    FORWARD,
    BACKWARD,
    LEFT,
    RIGHT,
}

} // verus!
