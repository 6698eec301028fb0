//! The renderable grid: a rectangle of tile markers.

use vstd::prelude::*;

use crate::body::SnakeBody;
use crate::geometry::body_covers;
use crate::geometry::lemma_covers_iff_contains;
use crate::geometry::Point;

verus! {

/// What a cell of the rendered grid holds.
#[derive(Clone, Copy, Debug, PartialEq, Eq, Structural)]
pub enum FieldTile {
    EMPTY,
    FOOD,
    SNAKE,
}

/// The marker the cell `(x, y)` shows: food wins over the body, the body
/// wins over empty ground.
pub open spec fn tile_at(body: Seq<Point>, food: Point, x: int, y: int) -> FieldTile {
    if food.0 == x && food.1 == y {
        FieldTile::FOOD
    } else if body_covers(body, x, y) {
        FieldTile::SNAKE
    } else {
        FieldTile::EMPTY
    }
}

/// An empty backing grid; snapshots are computed fresh from it.
pub struct Field {
    pub value: Vec<Vec<FieldTile>>,
}

impl Field {
    /// The number of rows.
    pub open spec fn spec_height(self) -> int {
        self.value@.len() as int
    }

    /// The number of columns of the first row.
    pub open spec fn spec_width(self) -> int {
        if self.value@.len() == 0 {
            0
        } else {
            self.value@[0]@.len() as int
        }
    }

    /// The grid is a `width` by `height` rectangle of `EMPTY` tiles.
    pub open spec fn is_empty_grid(self, width: int, height: int) -> bool {
        &&& self.value@.len() == height
        &&& forall|y: int| 0 <= y < height ==> (#[trigger] self.value@[y])@.len() == width
        &&& forall|y: int, x: int|
            0 <= y < height && 0 <= x < width ==> (#[trigger] self.value@[y]@[x])
                == FieldTile::EMPTY
    }

    /// A `width` by `height` grid of `EMPTY` tiles.
    pub fn new(width: usize, height: usize) -> (f: Field)
        ensures
            f.is_empty_grid(width as int, height as int),
    {
        let mut rows: Vec<Vec<FieldTile>> = Vec::new();
        let mut y: usize = 0;
        while y < height
            invariant
                0 <= y <= height,
                rows@.len() == y,
                forall|yy: int| 0 <= yy < y ==> (#[trigger] rows@[yy])@.len() == width,
                forall|yy: int, x: int|
                    0 <= yy < y && 0 <= x < width ==> (#[trigger] rows@[yy]@[x]) == FieldTile::EMPTY,
            decreases height - y,
        {
            let mut row: Vec<FieldTile> = Vec::new();
            let mut x: usize = 0;
            while x < width
                invariant
                    0 <= x <= width,
                    row@.len() == x,
                    forall|xx: int| 0 <= xx < x ==> (#[trigger] row@[xx]) == FieldTile::EMPTY,
                decreases width - x,
            {
                row.push(FieldTile::EMPTY);
                x = x + 1;
            }
            rows.push(row);
            y = y + 1;
        }
        Field { value: rows }
    }

    /// The grid with the snake's cells and then the food cell marked; the
    /// food marker is placed last, so it always wins.
    pub fn populate_field(&self, snake_body: &SnakeBody, food_location: &Point) -> (grid: Vec<
        Vec<FieldTile>,
    >)
        requires
            self.is_empty_grid(self.spec_width(), self.spec_height()),
            0 < self.spec_width() <= 10000,
            0 < self.spec_height() <= 10000,
        ensures
            grid@.len() == self.spec_height(),
            forall|y: int| 0 <= y < self.spec_height() ==> (#[trigger] grid@[y])@.len()
                == self.spec_width(),
            forall|y: int, x: int|
                0 <= y < self.spec_height() && 0 <= x < self.spec_width() ==> (
                #[trigger] grid@[y]@[x]) == tile_at(
                    snake_body.value@,
                    *food_location,
                    x,
                    y,
                ),
    {
        let height = self.value.len();
        let width = self.value[0].len();
        let mut rows: Vec<Vec<FieldTile>> = Vec::new();
        let mut y: usize = 0;
        while y < height
            invariant
                0 <= y <= height,
                height == self.spec_height(),
                width == self.spec_width(),
                width <= 10000,
                height <= 10000,
                rows@.len() == y,
                forall|yy: int| 0 <= yy < y ==> (#[trigger] rows@[yy])@.len() == width,
                forall|yy: int, x: int|
                    0 <= yy < y && 0 <= x < width ==> (#[trigger] rows@[yy]@[x]) == tile_at(
                        snake_body.value@,
                        *food_location,
                        x,
                        yy,
                    ),
            decreases height - y,
        {
            let mut row: Vec<FieldTile> = Vec::new();
            let mut x: usize = 0;
            while x < width
                invariant
                    0 <= x <= width,
                    width <= 10000,
                    y < height,
                    height <= 10000,
                    row@.len() == x,
                    forall|xx: int| 0 <= xx < x ==> (#[trigger] row@[xx]) == tile_at(
                        snake_body.value@,
                        *food_location,
                        xx,
                        y as int,
                    ),
                decreases width - x,
            {
                let xi = x as i32;
                let yi = y as i32;
                let tile = if food_location.0 == xi && food_location.1 == yi {
                    FieldTile::FOOD
                } else if snake_body.contains_point(Point(xi, yi)) {
                    FieldTile::SNAKE
                } else {
                    FieldTile::EMPTY
                };
                proof {
                    lemma_covers_iff_contains(snake_body.value@, Point(xi, yi));
                }
                row.push(tile);
                x = x + 1;
            }
            rows.push(row);
            y = y + 1;
        }
        rows
    }
}

} // verus!
