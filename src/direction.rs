use vstd::prelude::*;

verus! {

/// The way the snake's head is facing.
#[derive(Clone, Copy, Debug, PartialEq, Eq, Structural)]
pub enum Direction {
    Up,
    Right,
    Down,
    Left,
}

/// The four unit vectors of the grid: one cell up, right, down or left.
pub open spec fn unit_vectors() -> Set<(int, int)> {
    set![(0int, -1int), (1int, 0int), (0int, 1int), (-1int, 0int)]
}

impl Direction {
    /// The cell offset `(dx, dy)` of one move in this direction; `y` grows downwards.
    pub open spec fn delta(self) -> (int, int) {
        match self {
            Direction::Up => (0, -1),
            Direction::Right => (1, 0),
            Direction::Down => (0, 1),
            Direction::Left => (-1, 0),
        }
    }

    /// Returns the offset of one move in this direction.
    pub fn get_delta(&self) -> (r: (i16, i16))
        ensures
            (r.0 as int, r.1 as int) == self.delta(),
    {
        match self {
            Direction::Up => (0, -1),
            Direction::Right => (1, 0),
            Direction::Down => (0, 1),
            Direction::Left => (-1, 0),
        }
    }
}

/// Every direction moves by one of the four unit vectors, no two directions
/// move alike, and each unit vector is the move of some direction: `delta` is
/// a bijection between the directions and the unit vectors.
pub proof fn lemma_delta_bijection()
    ensures
        forall|d: Direction| #[trigger] unit_vectors().contains(d.delta()),
        forall|a: Direction, b: Direction| #[trigger] a.delta() == #[trigger] b.delta() ==> a == b,
        forall|v: (int, int)|
            #[trigger] unit_vectors().contains(v) ==> exists|d: Direction| d.delta() == v,
{
    assert forall|v: (int, int)| #[trigger] unit_vectors().contains(v) implies exists|
        d: Direction,
    | d.delta() == v by {
        if v == (0int, -1int) {
            assert(Direction::Up.delta() == v);
        } else if v == (1int, 0int) {
            assert(Direction::Right.delta() == v);
        } else if v == (0int, 1int) {
            assert(Direction::Down.delta() == v);
        } else {
            assert(Direction::Left.delta() == v);
        }
    }
}

} // verus!
