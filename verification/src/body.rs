//! The snake's body: an ordered sequence of cells, head first.

use vstd::prelude::*;

use crate::geometry::Point;

verus! {

/// The cells the snake occupies, head first; insertion order is
/// significant.
pub struct SnakeBody {
    pub value: Vec<Point>,
}

impl SnakeBody {
    /// A body made of exactly the given cells.
    pub fn new(body: Vec<Point>) -> (r: SnakeBody)
        ensures
            r.value@ == body@,
    {
        SnakeBody { value: body }
    }

    /// Prepends a new head cell, growing the body by one.
    pub fn append_to_body(&mut self, part: Point)
        ensures
            final(self).value@ == old(self).value@.insert(0, part),
    {
        self.value.insert(0, part);
    }

    /// Whether some cell of the body equals `p`.
    pub fn contains_point(&self, p: Point) -> (r: bool)
        ensures
            r == self.value@.contains(p),
    {
        let mut i: usize = 0;
        while i < self.value.len()
            invariant
                0 <= i <= self.value@.len(),
                forall|j: int| 0 <= j < i ==> self.value@[j] != p,
            decreases self.value@.len() - i,
        {
            if self.value[i] == p {
                return true;
            }
            i = i + 1;
        }
        false
    }
}

} // verus!
