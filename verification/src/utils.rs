//! Small shared utilities: the coordinate axis enumeration, the arena
//! allocator behind the tree, and the option-combining helper.

pub mod arena;
pub mod match_opts;

use vstd::prelude::*;

verus! {

/// One of the three coordinate axes, in the order used for tie-breaking
/// when the longest axis of a bounding box is chosen (X before Y before Z).
#[derive(Debug, Clone, Copy, PartialEq, Eq, Structural, Hash)]
pub enum Axis {
    X,
    Y,
    Z,
}

/// The position of an axis in a 3-vector: X is component 0, Y is 1, Z is 2.
pub open spec fn axis_position(axis: Axis) -> int {
    match axis {
        Axis::X => 0,
        Axis::Y => 1,
        Axis::Z => 2,
    }
}

impl Axis {
    /// The three axes in component order.
    pub fn axes() -> (all: [Axis; 3])
        ensures
            all@ =~= seq![Axis::X, Axis::Y, Axis::Z],
    {
        [Axis::X, Axis::Y, Axis::Z]
    }

    /// The component index of this axis, for indexing into a 3-vector.
    pub fn as_index(self) -> (index: usize)
        ensures
            index == axis_position(self),
    {
        match self {
            Axis::X => 0,
            Axis::Y => 1,
            Axis::Z => 2,
        }
    }
}

} // verus!
