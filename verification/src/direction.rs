use vstd::prelude::*;

verus! {

/// One of the four cardinal movement directions.
#[derive(Clone, Copy, Debug, PartialEq, Eq, Structural)]
pub enum Direction {
    Left,
    Up,
    Right,
    Down,
}

impl Direction {
    /// The unique direction opposite to this one.
    pub open spec fn spec_opposite(self) -> Direction {
        match self {
            Direction::Left => Direction::Right,
            Direction::Up => Direction::Down,
            Direction::Right => Direction::Left,
            Direction::Down => Direction::Up,
        }
    }

    /// True exactly when `other` is present and is the cardinal opposite of
    /// `self`; used to forbid a turn that would reverse the snake into its
    /// own neck.
    pub fn is_opposite_to(&self, other: &Option<Direction>) -> (r: bool)
        ensures
            r <==> *other == Some(self.spec_opposite()),
    {
        match other {
            Some(direction) => {
                match *self {
                    Direction::Left => *direction == Direction::Right,
                    Direction::Up => *direction == Direction::Down,
                    Direction::Right => *direction == Direction::Left,
                    Direction::Down => *direction == Direction::Up,
                }
            },
            None => false,
        }
    }
}

/// Being opposite is symmetric, and no direction is its own opposite.
pub proof fn lemma_opposite_symmetric(d1: Direction, d2: Direction)
    ensures
        (d1.spec_opposite() == d2) <==> (d2.spec_opposite() == d1),
        d1.spec_opposite() != d1,
{
}

} // verus!
