use vstd::prelude::*;

verus! {

/// One of the three coordinate axes. The bounding-volume hierarchy cycles
/// through the axes when it picks a split direction, and the axis-aligned
/// rectangle uses the two axes following its own as its in-plane directions.
#[derive(Clone, Copy, Debug, PartialEq, Eq, Structural)]
pub enum Axis {
    X,
    Y,
    Z,
}

impl Axis {
    /// The axis after this one in the cycle X -> Y -> Z -> X.
    pub fn next(&self) -> (r: Axis)
        ensures
            r == (match self {
                Axis::X => Axis::Y,
                Axis::Y => Axis::Z,
                Axis::Z => Axis::X,
            }),
    {
        match self {
            Axis::X => Axis::Y,
            Axis::Y => Axis::Z,
            Axis::Z => Axis::X,
        }
    }

    /// The axis before this one in the cycle; the inverse of `next`.
    pub fn prev(&self) -> (r: Axis)
        ensures
            r == (match self {
                Axis::X => Axis::Z,
                Axis::Y => Axis::X,
                Axis::Z => Axis::Y,
            }),
    {
        match self {
            Axis::X => Axis::Z,
            Axis::Y => Axis::X,
            Axis::Z => Axis::Y,
        }
    }

    /// The component position this axis selects in a coordinate triple.
    pub fn index(&self) -> (r: usize)
        ensures
            r == (match self {
                Axis::X => 0usize,
                Axis::Y => 1usize,
                Axis::Z => 2usize,
            }),
            r < 3,
    {
        match self {
            Axis::X => 0,
            Axis::Y => 1,
            Axis::Z => 2,
        }
    }
}

} // verus!
