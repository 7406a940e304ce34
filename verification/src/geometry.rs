//! Shapes shared by CPU paths and the GPU capsule signed-distance function.

use vstd::prelude::*;

verus! {

/// The long axis of a resolved capsule.
#[derive(Clone, Copy, Debug, PartialEq, Eq, Structural)]
pub enum CapsuleAxis {
    Horizontal,
    Vertical,
    Circle,
}

} // verus!
