//! The rotation direction used by the encoder abstraction.

use vstd::prelude::*;

verus! {

/// The direction in which the motor is turning when looking at the shaft.
#[derive(Copy, Clone, Debug, PartialEq, Eq, Structural)]
pub enum Direction {
    Clockwise,
    CounterClockwise,
}

impl Direction {
    /// The default direction is `Clockwise`.
    pub fn default() -> (d: Self)
        ensures
            d == Direction::Clockwise,
    {
        Direction::Clockwise
    }

    /// The other direction.
    pub open spec fn spec_opposite(self) -> Direction {
        match self {
            Direction::Clockwise => Direction::CounterClockwise,
            Direction::CounterClockwise => Direction::Clockwise,
        }
    }

    /// The sign by which motor control denotes the direction.
    pub open spec fn spec_multiplier(self) -> i32 {
        match self {
            Direction::Clockwise => 1i32,
            Direction::CounterClockwise => -1i32,
        }
    }

    /// Returns the opposite direction: `CounterClockwise` for `Clockwise` and vice versa.
    pub fn opposite(&self) -> (d: Self)
        ensures
            d == self.spec_opposite(),
    {
        match self {
            Direction::Clockwise => Direction::CounterClockwise,
            Direction::CounterClockwise => Direction::Clockwise,
        }
    }

    /// Returns `1` for `Clockwise` and `-1` for `CounterClockwise`.
    pub fn multiplier(&self) -> (m: i32)
        ensures
            m == self.spec_multiplier(),
    {
        match self {
            Direction::Clockwise => 1,
            Direction::CounterClockwise => -1,
        }
    }
}

/// Taking the opposite twice gives the direction back, the opposite direction is
/// never the same one, and its multiplier is the negated multiplier.
pub proof fn lemma_direction_opposite(d: Direction)
    ensures
        d.spec_opposite().spec_opposite() == d,
        d.spec_opposite() != d,
        d.spec_opposite().spec_multiplier() == -d.spec_multiplier(),
{
}

} // verus!
