//! Positions on the grid and the four movement headings.

use vstd::prelude::*;

verus! {

/// A cell of the grid: 0-based `x` (column) and `y` (row) coordinates.
#[derive(Clone, Copy, Debug, PartialEq, Eq, Structural)]
pub struct Point(pub i32, pub i32);

/// One of the four headings the snake can move in.
#[derive(Clone, Copy, Debug, PartialEq, Eq, Structural)]
pub enum Direction {
    Up,
    Right,
    Down,
    Left,
}

/// The heading a key character maps to; anything unrecognized falls back
/// to `Right`.
pub open spec fn direction_of(c: char) -> Direction {
    if c == 'w' {
        Direction::Up
    } else if c == 'd' {
        Direction::Right
    } else if c == 's' {
        Direction::Down
    } else if c == 'a' {
        Direction::Left
    } else {
        Direction::Right
    }
}

impl Direction {
    /// The heading pointing the opposite way.
    pub open spec fn spec_opposite(self) -> Direction {
        match self {
            Direction::Up => Direction::Down,
            Direction::Right => Direction::Left,
            Direction::Down => Direction::Up,
            Direction::Left => Direction::Right,
        }
    }
}

impl From<char> for Direction {
    fn from(c: char) -> (d: Direction) {
        if c == 'w' {
            Direction::Up
        } else if c == 'd' {
            Direction::Right
        } else if c == 's' {
            Direction::Down
        } else if c == 'a' {
            Direction::Left
        } else {
            Direction::Right
        }
    }
}

impl vstd::std_specs::convert::FromSpecImpl<char> for Direction {
    open spec fn obeys_from_spec() -> bool {
        true
    }

    open spec fn from_spec(c: char) -> Direction {
        direction_of(c)
    }
}

/// The heading the snake is currently moving in.
#[derive(Clone, Copy, Debug, PartialEq, Eq, Structural)]
pub struct CurrentDirection {
    pub current: Direction,
}

impl CurrentDirection {
    /// A heading parsed from a key character.
    pub fn new(character: char) -> (r: CurrentDirection)
        ensures
            r.current == direction_of(character),
    {
        CurrentDirection { current: Direction::from(character) }
    }

    /// Replaces the heading with the one the key character maps to,
    /// unconditionally.
    pub fn change_current_direction(&mut self, direction: char)
        ensures
            final(self).current == direction_of(direction),
    {
        self.current = Direction::from(direction);
    }

    /// The heading opposite to the current one.
    pub fn opposite(&self) -> (d: Direction)
        ensures
            d == self.current.spec_opposite(),
    {
        match self.current {
            Direction::Up => Direction::Down,
            Direction::Right => Direction::Left,
            Direction::Down => Direction::Up,
            Direction::Left => Direction::Right,
        }
    }
}

/// Whether `p` lies on a `width` by `height` grid.
pub open spec fn point_in_bounds(p: Point, width: int, height: int) -> bool {
    0 <= p.0 < width && 0 <= p.1 < height
}

/// Whether some element of `body` occupies the cell `(x, y)`.
pub open spec fn body_covers(body: Seq<Point>, x: int, y: int) -> bool {
    exists|i: int| 0 <= i < body.len() && body[i].0 == x && body[i].1 == y
}

/// The body covers the cell of `p` exactly when it holds `p` itself.
pub proof fn lemma_covers_iff_contains(body: Seq<Point>, p: Point)
    ensures
        body_covers(body, p.0 as int, p.1 as int) <==> body.contains(p),
{
    if body_covers(body, p.0 as int, p.1 as int) {
        let i = choose|i: int|
            0 <= i < body.len() && body[i].0 == p.0 as int && body[i].1 == p.1 as int;
        assert(body[i] == p);
        assert(body.contains(p));
    }
    if body.contains(p) {
        let i = choose|i: int| 0 <= i < body.len() && body[i] == p;
        assert(body[i].0 == p.0 as int && body[i].1 == p.1 as int);
    }
}

} // verus!
