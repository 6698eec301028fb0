//! Choosing a food cell: random draws with a proven fallback, so the
//! search always lands on a free cell while the board is not full.

use vstd::prelude::*;

use vstd::arithmetic::div_mod::lemma_div_pos_is_pos;
use vstd::arithmetic::div_mod::lemma_fundamental_div_mod;
use vstd::arithmetic::div_mod::lemma_mod_division_less_than_divisor;
use vstd::seq_lib::seq_to_set_is_finite;
use vstd::set_lib::lemma_int_range;
use vstd::set_lib::lemma_len_subset;
use vstd::set_lib::set_int_range;

use crate::body::SnakeBody;
use crate::geometry::body_covers;
use crate::geometry::lemma_covers_iff_contains;
use crate::geometry::point_in_bounds;
use crate::geometry::Point;
use crate::rng::random_below;

verus! {

/// How many random draws are tried before falling back to a scan.
pub const RELOCATION_ATTEMPTS: u32 = 1000;

/// Pigeonhole: fewer occupied cells than the board holds leaves some cell
/// of the board free.
proof fn lemma_free_cell_exists(body: Seq<Point>, width: int, height: int)
    requires
        0 < width,
        0 < height,
        body.len() < width * height,
    ensures
        exists|x: int, y: int| 0 <= x < width && 0 <= y < height && !body_covers(body, x, y),
{
    broadcast use seq_to_set_is_finite;

    if !(exists|x: int, y: int| 0 <= x < width && 0 <= y < height && !body_covers(body, x, y)) {
        let occ = body.map_values(|p: Point| width * p.1 + p.0);
        assert forall|idx: int| 0 <= idx < width * height implies occ.to_set().contains(idx) by {
            let x = idx % width;
            let y = idx / width;
            lemma_mod_division_less_than_divisor(idx, width);
            lemma_div_pos_is_pos(idx, width);
            lemma_fundamental_div_mod(idx, width);
            assert(idx == width * y + x);
            assert(y < height) by (nonlinear_arith)
                requires
                    idx == width * y + x,
                    idx < width * height,
                    0 <= x,
                    0 < width,
                    0 <= y,
            ;
            assert(body_covers(body, x, y));
            let i = choose|i: int| 0 <= i < body.len() && body[i].0 == x && body[i].1 == y;
            assert(occ[i] == width * body[i].1 + body[i].0);
            assert(occ[i] == idx);
            assert(occ.contains(idx));
        }
        assert(set_int_range(0, width * height).subset_of(occ.to_set()));
        lemma_int_range(0, width * height);
        lemma_len_subset(set_int_range(0, width * height), occ.to_set());
        occ.lemma_cardinality_of_set();
        assert(false);
    }
}

/// The first free cell of the board, scanning rows top to bottom. The
/// board is not full, so the scan cannot come up empty.
fn find_free_cell(body: &SnakeBody, width: i32, height: i32) -> (p: Point)
    requires
        0 < width <= 10000,
        0 < height <= 10000,
        body.value@.len() < width * height,
    ensures
        point_in_bounds(p, width as int, height as int),
        !body_covers(body.value@, p.0 as int, p.1 as int),
{
    let mut y: i32 = 0;
    while y < height
        invariant
            0 <= y <= height,
            0 < width <= 10000,
            0 < height <= 10000,
            body.value@.len() < width * height,
            forall|yy: int, xx: int|
                0 <= yy < y && 0 <= xx < width ==> body_covers(body.value@, xx, yy),
        decreases height - y,
    {
        let mut x: i32 = 0;
        while x < width
            invariant
                0 <= x <= width,
                0 <= y < height,
                0 < width <= 10000,
                0 < height <= 10000,
                forall|yy: int, xx: int|
                    0 <= yy < y && 0 <= xx < width ==> body_covers(body.value@, xx, yy),
                forall|xx: int| 0 <= xx < x ==> body_covers(body.value@, xx, y as int),
            decreases width - x,
        {
            let candidate = Point(x, y);
            let taken = body.contains_point(candidate);
            proof {
                lemma_covers_iff_contains(body.value@, candidate);
            }
            if !taken {
                return candidate;
            }
            x = x + 1;
        }
        y = y + 1;
    }
    proof {
        lemma_free_cell_exists(body.value@, width as int, height as int);
        let (fx, fy) = choose|fx: int, fy: int|
            0 <= fx < width && 0 <= fy < height && !body_covers(body.value@, fx, fy);
        assert(body_covers(body.value@, fx, fy));
    }
    assert(false);
    Point(0, 0)
}

/// A free cell of the board, drawn at random; after too many occupied
/// draws the deterministic scan takes over so the search terminates.
pub(crate) fn choose_food_location(body: &SnakeBody, width: i32, height: i32) -> (p: Point)
    requires
        0 < width <= 10000,
        0 < height <= 10000,
        body.value@.len() < width * height,
    ensures
        point_in_bounds(p, width as int, height as int),
        !body_covers(body.value@, p.0 as int, p.1 as int),
{
    let mut attempts: u32 = 0;
    while attempts < RELOCATION_ATTEMPTS
        invariant
            0 < width <= 10000,
            0 < height <= 10000,
            body.value@.len() < width * height,
        decreases RELOCATION_ATTEMPTS - attempts,
    {
        let candidate = Point(random_below(width), random_below(height));
        let taken = body.contains_point(candidate);
        proof {
            lemma_covers_iff_contains(body.value@, candidate);
        }
        if !taken {
            return candidate;
        }
        attempts = attempts + 1;
    }
    find_free_cell(body, width, height)
}

} // verus!
