//! The eight compass directions in which a cell has neighbours.

use vstd::prelude::*;

verus! {

/// One of the eight compass offsets around a cell. `(0, 0)` is the top-left
/// corner of the board, so "top" means a smaller `y`.
#[derive(Clone, Copy, PartialEq, Eq, Structural, Hash, Debug)]
pub enum Direction {
    TopLeft,
    Top,
    TopRight,
    Left,
    Right,
    BottomLeft,
    Bottom,
    BottomRight,
}

impl Direction {
    /// The horizontal step of this direction: -1, 0 or 1.
    pub open spec fn dx(self) -> int {
        match self {
            Direction::TopLeft | Direction::Left | Direction::BottomLeft => -1,
            Direction::Top | Direction::Bottom => 0,
            Direction::TopRight | Direction::Right | Direction::BottomRight => 1,
        }
    }

    /// The vertical step of this direction: -1, 0 or 1.
    pub open spec fn dy(self) -> int {
        match self {
            Direction::TopLeft | Direction::Top | Direction::TopRight => -1,
            Direction::Left | Direction::Right => 0,
            Direction::BottomLeft | Direction::Bottom | Direction::BottomRight => 1,
        }
    }

    /// The place of this direction in the canonical order, 0 to 7.
    pub open spec fn rank(self) -> int {
        match self {
            Direction::TopLeft => 0,
            Direction::Top => 1,
            Direction::TopRight => 2,
            Direction::Left => 3,
            Direction::Right => 4,
            Direction::BottomLeft => 5,
            Direction::Bottom => 6,
            Direction::BottomRight => 7,
        }
    }

    /// The direction at place `rank` of the canonical order.
    pub open spec fn of_rank(rank: int) -> Direction {
        if rank == 0 {
            Direction::TopLeft
        } else if rank == 1 {
            Direction::Top
        } else if rank == 2 {
            Direction::TopRight
        } else if rank == 3 {
            Direction::Left
        } else if rank == 4 {
            Direction::Right
        } else if rank == 5 {
            Direction::BottomLeft
        } else if rank == 6 {
            Direction::Bottom
        } else {
            Direction::BottomRight
        }
    }

    /// Where one step in this direction from `(x, y)` leads, if both
    /// coordinates stay within `usize`.
    pub open spec fn spec_offset(self, x: int, y: int) -> Option<(usize, usize)> {
        let nx = x + self.dx();
        let ny = y + self.dy();
        if 0 <= nx <= usize::MAX && 0 <= ny <= usize::MAX {
            Some((nx as usize, ny as usize))
        } else {
            None
        }
    }

    /// The coordinate step `(dx, dy)` of this direction.
    pub fn to_coords(&self) -> (step: (isize, isize))
        ensures
            step.0 == self.dx(),
            step.1 == self.dy(),
    {
        match *self {
            Direction::TopLeft => (-1, -1),
            Direction::Top => (0, -1),
            Direction::TopRight => (1, -1),
            Direction::Left => (-1, 0),
            Direction::Right => (1, 0),
            Direction::BottomLeft => (-1, 1),
            Direction::Bottom => (0, 1),
            Direction::BottomRight => (1, 1),
        }
    }

    /// Adds this direction's step to `(x, y)` with checked arithmetic:
    /// `None` where a coordinate would leave the range of `usize`, never a
    /// wrapped value.
    pub fn offset(&self, x: usize, y: usize) -> (moved: Option<(usize, usize)>)
        ensures
            moved == self.spec_offset(x as int, y as int),
    {
        let (dx, dy) = self.to_coords();
        let nx = if dx < 0 {
            x.checked_sub(1)
        } else if dx > 0 {
            x.checked_add(1)
        } else {
            Some(x)
        };
        let ny = if dy < 0 {
            y.checked_sub(1)
        } else if dy > 0 {
            y.checked_add(1)
        } else {
            Some(y)
        };
        match (nx, ny) {
            (Some(nx), Some(ny)) => Some((nx, ny)),
            _ => None,
        }
    }

    /// The number of this direction in the canonical order.
    pub fn index(&self) -> (i: usize)
        ensures
            i == self.rank(),
    {
        match *self {
            Direction::TopLeft => 0,
            Direction::Top => 1,
            Direction::TopRight => 2,
            Direction::Left => 3,
            Direction::Right => 4,
            Direction::BottomLeft => 5,
            Direction::Bottom => 6,
            Direction::BottomRight => 7,
        }
    }

    /// All eight directions in the canonical order, which is the order in
    /// which a cell looks at its neighbours.
    pub fn all() -> (dirs: [Direction; 8])
        ensures
            forall|i: int| 0 <= i < 8 ==> #[trigger] dirs[i] == Direction::of_rank(i),
    {
        [
            Direction::TopLeft,
            Direction::Top,
            Direction::TopRight,
            Direction::Left,
            Direction::Right,
            Direction::BottomLeft,
            Direction::Bottom,
            Direction::BottomRight,
        ]
    }
}

/// Every direction has a rank from 0 to 7, and `of_rank` inverts `rank`.
pub proof fn rank_roundtrip(d: Direction)
    ensures
        0 <= d.rank() < 8,
        Direction::of_rank(d.rank()) == d,
{
}

/// `rank` inverts `of_rank` on 0 to 7, so the eight directions are distinct.
pub proof fn of_rank_roundtrip(rank: int)
    requires
        0 <= rank < 8,
    ensures
        Direction::of_rank(rank).rank() == rank,
{
}

/// No direction stands still: a neighbour is never the cell itself.
pub proof fn step_is_never_zero(d: Direction)
    ensures
        d.dx() != 0 || d.dy() != 0,
        -1 <= d.dx() <= 1,
        -1 <= d.dy() <= 1,
{
}

} // verus!
