//! The game engine: one mutable state value advanced tick by tick.

use vstd::prelude::*;

use crate::body::SnakeBody;
use crate::field::tile_at;
use crate::field::Field;
use crate::field::FieldTile;
use crate::geometry::body_covers;
use crate::geometry::direction_of;
use crate::geometry::point_in_bounds;
use crate::geometry::CurrentDirection;
use crate::geometry::Direction;
use crate::geometry::Point;
use crate::placement::choose_food_location;

verus! {

/// Columns of the reference configuration.
pub const FIELD_WIDTH: i32 = 25;

/// Rows of the reference configuration.
pub const FIELD_HEIGHT: i32 = 25;

/// How a finished game ended.
#[derive(Clone, Copy, Debug, PartialEq, Eq, Structural)]
pub enum GameEnd {
    Win,
    Lose,
}

/// The phase of a game; `Ended` is terminal but for `setup`.
#[derive(Clone, Copy, Debug, PartialEq, Eq, Structural)]
pub enum GameStatus {
    Starting,
    Ongoing,
    Ended(GameEnd),
}

/// The whole engine state: board, body, heading, food, phase and score.
pub struct Snake {
    pub field: Field,
    pub snake_body: SnakeBody,
    pub snake_head: Point,
    pub food_location: Point,
    pub direction: CurrentDirection,
    pub current_game: GameStatus,
    pub score: i32,
    pub width: i32,
    pub height: i32,
}

impl Snake {
    /// The body as a sequence of cells, head first.
    pub open spec fn body(self) -> Seq<Point> {
        self.snake_body.value@
    }

    /// How many cells the board has.
    pub open spec fn cells(self) -> int {
        (self.width as int) * (self.height as int)
    }

    /// The state invariant every operation preserves: the board has room
    /// for the start configuration, the body is nonempty, on the board,
    /// free of duplicates and headed by the cached head cell, the food is
    /// on the board and off the body while the board is not full, a full
    /// board means the game is won, and the score counts the food eaten.
    pub open spec fn wf(self) -> bool {
        &&& 5 <= self.width <= 10000
        &&& 4 <= self.height <= 10000
        &&& 1 <= self.body().len() <= self.cells()
        &&& self.body()[0] == self.snake_head
        &&& forall|i: int|
            0 <= i < self.body().len() ==> point_in_bounds(
                #[trigger] self.body()[i],
                self.width as int,
                self.height as int,
            )
        &&& point_in_bounds(self.food_location, self.width as int, self.height as int)
        &&& forall|i: int, j: int|
            #![trigger self.body()[i], self.body()[j]]
            0 <= i < j < self.body().len() ==> self.body()[i] != self.body()[j]
        &&& (self.body().len() < self.cells() ==> !body_covers(
            self.body(),
            self.food_location.0 as int,
            self.food_location.1 as int,
        ))
        &&& (self.body().len() == self.cells() ==> self.current_game == GameStatus::Ended(
            GameEnd::Win,
        ))
        &&& self.score == self.body().len() - 1
        &&& self.field.is_empty_grid(self.width as int, self.height as int)
    }

    /// The fresh state on a `width` by `height` board.
    pub open spec fn is_initial(self, width: int, height: int) -> bool {
        &&& self.width == width
        &&& self.height == height
        &&& self.body() == seq![Point(3, 3)]
        &&& self.snake_head == Point(3, 3)
        &&& self.food_location == Point(4, 3)
        &&& self.direction.current == Direction::Right
        &&& self.current_game == GameStatus::Starting
        &&& self.score == 0
        &&& self.field.is_empty_grid(width, height)
    }

    /// The game is in a terminal phase.
    pub open spec fn is_ended(self) -> bool {
        self.current_game matches GameStatus::Ended(_)
    }

    /// The column one step ahead of the head in the current heading.
    pub open spec fn next_x(self) -> int {
        match self.direction.current {
            Direction::Up => self.snake_head.0 as int,
            Direction::Right => self.snake_head.0 + 1,
            Direction::Down => self.snake_head.0 as int,
            Direction::Left => self.snake_head.0 - 1,
        }
    }

    /// The row one step ahead of the head in the current heading.
    pub open spec fn next_y(self) -> int {
        match self.direction.current {
            Direction::Up => self.snake_head.1 - 1,
            Direction::Right => self.snake_head.1 as int,
            Direction::Down => self.snake_head.1 + 1,
            Direction::Left => self.snake_head.1 as int,
        }
    }

    /// The cell one step ahead of the head in the current heading.
    pub open spec fn next_point(self) -> Point {
        Point(self.next_x() as i32, self.next_y() as i32)
    }

    /// The next head cell stays on the board.
    pub open spec fn next_in_bounds(self) -> bool {
        0 <= self.next_x() < self.width as int && 0 <= self.next_y() < self.height as int
    }

    /// The next head cell hits a body segment other than the head.
    pub open spec fn next_collides(self) -> bool {
        exists|i: int|
            1 <= i < self.body().len() && self.body()[i].0 == self.next_x() && self.body()[i].1
                == self.next_y()
    }

    /// The next head cell is the food cell.
    pub open spec fn next_on_food(self) -> bool {
        self.food_location.0 == self.next_x() && self.food_location.1 == self.next_y()
    }

    /// Board, body, head, food, heading and score agree; only the phase
    /// may differ.
    pub open spec fn same_board(self, other: Snake) -> bool {
        &&& self.width == other.width
        &&& self.height == other.height
        &&& self.body() == other.body()
        &&& self.snake_head == other.snake_head
        &&& self.food_location == other.food_location
        &&& self.direction == other.direction
        &&& self.score == other.score
        &&& self.field.value@ == other.field.value@
    }

    /// A fresh engine on a board of the given dimensions: single body
    /// segment at (3, 3), food at (4, 3), heading right, phase
    /// `Starting`, score 0.
    pub fn with_dimensions(width: i32, height: i32) -> (s: Snake)
        requires
            5 <= width <= 10000,
            4 <= height <= 10000,
        ensures
            s.wf(),
            s.is_initial(width as int, height as int),
    {
        let mut start: Vec<Point> = Vec::new();
        start.push(Point(3, 3));
        let s = Snake {
            field: Field::new(width as usize, height as usize),
            snake_body: SnakeBody::new(start),
            snake_head: Point(3, 3),
            food_location: Point(4, 3),
            direction: CurrentDirection::new('d'),
            current_game: GameStatus::Starting,
            score: 0,
            width,
            height,
        };
        proof {
            assert(s.body() =~= seq![Point(3, 3)]);
            assert(s.cells() >= 20) by (nonlinear_arith)
                requires
                    5 <= width,
                    4 <= height,
                    s.cells() == (width as int) * (height as int),
            ;
            assert(!body_covers(s.body(), 4, 3));
        }
        s
    }

    /// A fresh engine on the reference 25 by 25 board.
    pub fn new() -> (s: Snake)
        ensures
            s.wf(),
            s.is_initial(FIELD_WIDTH as int, FIELD_HEIGHT as int),
    {
        Snake::with_dimensions(FIELD_WIDTH, FIELD_HEIGHT)
    }

    /// Discards the whole state and restores the fresh state on the same
    /// board, from any phase; this is the only way out of `Ended`.
    pub fn setup(&mut self)
        requires
            5 <= old(self).width <= 10000,
            4 <= old(self).height <= 10000,
        ensures
            final(self).wf(),
            final(self).is_initial(old(self).width as int, old(self).height as int),
    {
        let fresh = Snake::with_dimensions(self.width, self.height);
        *self = fresh;
    }

    /// Leaves `Starting` for `Ongoing`; in any other phase nothing
    /// changes.
    pub fn start_game(&mut self)
        requires
            old(self).wf(),
        ensures
            final(self).wf(),
            old(self).current_game == GameStatus::Starting ==> final(self).current_game
                == GameStatus::Ongoing,
            old(self).current_game != GameStatus::Starting ==> final(self).current_game == old(
                self,
            ).current_game,
            final(self).same_board(*old(self)),
    {
        match self.current_game {
            GameStatus::Starting => {
                self.current_game = GameStatus::Ongoing;
            },
            _ => {},
        }
    }

    /// Stores the heading the key character maps to, unless that heading
    /// is the exact opposite of the current one while the body is longer
    /// than one segment: a grown snake cannot turn back into itself, a
    /// single segment may reverse freely.
    pub fn change_direction(&mut self, direction: char)
        requires
            old(self).wf(),
        ensures
            final(self).wf(),
            direction_of(direction) != old(self).direction.current.spec_opposite() || old(
                self,
            ).body().len() == 1 ==> final(self).direction.current == direction_of(direction),
            direction_of(direction) == old(self).direction.current.spec_opposite() && old(
                self,
            ).body().len() > 1 ==> final(self).direction == old(self).direction,
            final(self).body() == old(self).body(),
            final(self).snake_head == old(self).snake_head,
            final(self).food_location == old(self).food_location,
            final(self).current_game == old(self).current_game,
            final(self).score == old(self).score,
            final(self).width == old(self).width,
            final(self).height == old(self).height,
    {
        let requested = CurrentDirection::new(direction);
        if requested.current != self.direction.opposite() || self.snake_body.value.len() == 1 {
            self.direction.current = requested.current;
        }
    }

    /// Advances the simulation one tick: the head moves one cell in the
    /// current heading; leaving the board or hitting the body loses and
    /// freezes the state; reaching the food grows the body, scores and
    /// either wins a full board or relocates the food to a free cell;
    /// any other move shifts the body without growth. In a terminal
    /// phase nothing changes.
    #[verifier::loop_isolation(false)]
    pub fn tick(&mut self)
        requires
            old(self).wf(),
        ensures
            final(self).wf(),
            final(self).width == old(self).width,
            final(self).height == old(self).height,
            final(self).direction == old(self).direction,
            final(self).field.value@ == old(self).field.value@,
            old(self).is_ended() ==> *final(self) == *old(self),
            !old(self).is_ended() && !old(self).next_in_bounds() ==> {
                &&& final(self).current_game == GameStatus::Ended(GameEnd::Lose)
                &&& final(self).same_board(*old(self))
            },
            !old(self).is_ended() && old(self).next_in_bounds() && old(self).next_collides() ==> {
                &&& final(self).current_game == GameStatus::Ended(GameEnd::Lose)
                &&& final(self).same_board(*old(self))
            },
            !old(self).is_ended() && old(self).next_in_bounds() && !old(self).next_collides() ==> {
                &&& final(self).snake_head == old(self).next_point()
                &&& final(self).body()[0] == old(self).next_point()
                &&& (old(self).next_on_food() ==> {
                    &&& final(self).body() == old(self).body().insert(0, old(self).next_point())
                    &&& final(self).score == old(self).score + 1
                })
                &&& (old(self).next_on_food() && old(self).body().len() + 1 == old(self).cells()
                    ==> {
                    &&& final(self).current_game == GameStatus::Ended(GameEnd::Win)
                    &&& final(self).food_location == old(self).food_location
                })
                &&& (old(self).next_on_food() && old(self).body().len() + 1 < old(self).cells()
                    ==> {
                    &&& final(self).current_game == old(self).current_game
                    &&& point_in_bounds(
                        final(self).food_location,
                        old(self).width as int,
                        old(self).height as int,
                    )
                    &&& !body_covers(
                        final(self).body(),
                        final(self).food_location.0 as int,
                        final(self).food_location.1 as int,
                    )
                })
                &&& (!old(self).next_on_food() ==> {
                    &&& final(self).body() == old(self).body().insert(
                        0,
                        old(self).next_point(),
                    ).drop_last()
                    &&& final(self).score == old(self).score
                    &&& final(self).food_location == old(self).food_location
                    &&& final(self).current_game == old(self).current_game
                })
            },
    {
        match self.current_game {
            GameStatus::Ended(_) => {
                return ;
            },
            _ => {},
        }
        proof {
            assert(point_in_bounds(old(self).body()[0], self.width as int, self.height as int));
        }
        let new_part = match self.direction.current {
            Direction::Up => Point(self.snake_head.0, self.snake_head.1 - 1),
            Direction::Right => Point(self.snake_head.0 + 1, self.snake_head.1),
            Direction::Down => Point(self.snake_head.0, self.snake_head.1 + 1),
            Direction::Left => Point(self.snake_head.0 - 1, self.snake_head.1),
        };
        if new_part.1 >= self.height || new_part.1 < 0 || new_part.0 >= self.width || new_part.0
            < 0 {
            self.current_game = GameStatus::Ended(GameEnd::Lose);
            return ;
        }
        assert(new_part == old(self).next_point());
        let mut i: usize = 1;
        while i < self.snake_body.value.len()
            invariant
                1 <= i <= self.snake_body.value@.len(),
                *self == *old(self),
                forall|j: int|
                    1 <= j < i ==> !(self.snake_body.value@[j].0 == old(self).next_x()
                        && self.snake_body.value@[j].1 == old(self).next_y()),
            decreases self.snake_body.value@.len() - i,
        {
            let seg = self.snake_body.value[i];
            if seg.0 == new_part.0 && seg.1 == new_part.1 {
                self.current_game = GameStatus::Ended(GameEnd::Lose);
                return ;
            }
            i = i + 1;
        }
        assert(!old(self).next_collides());
        let ghost ob = old(self).body();
        let ghost np = old(self).next_point();
        self.snake_body.append_to_body(new_part);
        proof {
            assert(self.body() =~= seq![np] + ob);
        }
        if !(new_part.0 == self.food_location.0 && new_part.1 == self.food_location.1) {
            self.snake_body.value.pop();
            proof {
                assert(self.body() =~= (seq![np] + ob).drop_last());
                assert(self.body() =~= ob.insert(0, np).drop_last());
                lemma_step_keeps_distinct(ob, np, *old(self));
                assert(!body_covers(self.body(), self.food_location.0 as int, self.food_location.1
                    as int)) by {
                    if body_covers(
                        self.body(),
                        self.food_location.0 as int,
                        self.food_location.1 as int,
                    ) {
                        let k = choose|k: int|
                            0 <= k < self.body().len() && self.body()[k].0
                                == self.food_location.0 as int && self.body()[k].1
                                == self.food_location.1 as int;
                        if k == 0 {
                            assert(old(self).next_on_food());
                        } else {
                            assert(self.body()[k] == ob[k - 1]);
                            assert(body_covers(
                                ob,
                                self.food_location.0 as int,
                                self.food_location.1 as int,
                            ));
                        }
                    }
                }
            }
        } else {
            assert(old(self).next_on_food());
            proof {
                let w = old(self).width;
                let h = old(self).height;
                assert((w as int) * (h as int) <= 100_000_000) by (nonlinear_arith)
                    requires
                        5 <= w <= 10000,
                        4 <= h <= 10000,
                ;
                assert(old(self).cells() <= 100_000_000);
                assert(ob.len() < old(self).cells());
                assert(!body_covers(ob, np.0 as int, np.1 as int));
                assert forall|a: int| 0 <= a < ob.len() implies ob[a] != np by {
                    if ob[a] == np {
                        assert(body_covers(ob, np.0 as int, np.1 as int));
                    }
                }
            }
            self.score = self.score + 1;
            let total = (self.width as usize) * (self.height as usize);
            proof {
                assert(total == old(self).cells());
            }
            if self.snake_body.value.len() == total {
                self.current_game = GameStatus::Ended(GameEnd::Win);
            } else {
                let new_food = choose_food_location(&self.snake_body, self.width, self.height);
                self.food_location = new_food;
            }
        }
        self.snake_head = new_part;
    }

    /// The renderable grid: food on its cell, the body on its cells,
    /// empty ground elsewhere.
    pub fn return_computed_field(&self) -> (grid: Vec<Vec<FieldTile>>)
        requires
            self.wf(),
        ensures
            grid@.len() == self.height as int,
            forall|y: int| 0 <= y < self.height as int ==> (#[trigger] grid@[y])@.len()
                == self.width as int,
            forall|y: int, x: int|
                0 <= y < self.height as int && 0 <= x < self.width as int ==> (
                #[trigger] grid@[y]@[x]) == tile_at(self.body(), self.food_location, x, y),
    {
        self.field.populate_field(&self.snake_body, &self.food_location)
    }

    /// The current phase.
    pub fn phase(&self) -> (g: GameStatus)
        ensures
            g == self.current_game,
    {
        self.current_game
    }

    /// The current score.
    pub fn score(&self) -> (s: i32)
        ensures
            s == self.score,
    {
        self.score
    }
}

/// One non-growing step keeps the body free of duplicates: the new head
/// differs from the old head by one coordinate and was checked against
/// every other surviving segment.
proof fn lemma_step_keeps_distinct(ob: Seq<Point>, np: Point, prev: Snake)
    requires
        prev.wf(),
        ob == prev.body(),
        np == prev.next_point(),
        prev.next_in_bounds(),
        !prev.next_collides(),
    ensures
        forall|a: int, b: int|
            #![trigger ob.insert(0, np).drop_last()[a], ob.insert(0, np).drop_last()[b]]
            0 <= a < b < ob.insert(0, np).drop_last().len() ==> ob.insert(0, np).drop_last()[a]
                != ob.insert(0, np).drop_last()[b],
{
    let nb = ob.insert(0, np).drop_last();
    assert(nb =~= seq![np] + ob.drop_last());
    assert forall|a: int, b: int| 0 <= a < b < nb.len() implies nb[a] != nb[b] by {
        if a == 0 {
            assert(nb[b] == ob[b - 1]);
            if b - 1 == 0 {
                assert(ob[0] == prev.snake_head);
                assert(np.0 != prev.snake_head.0 || np.1 != prev.snake_head.1);
            } else {
                assert(!(ob[b - 1].0 == prev.next_x() && ob[b - 1].1 == prev.next_y()));
            }
        } else {
            assert(nb[a] == ob[a - 1] && nb[b] == ob[b - 1]);
        }
    }
}

} // verus!

