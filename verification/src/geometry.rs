//! Toroidal grid geometry: cells, directions, and wrap-around movement.

use vstd::prelude::*;
use vstd::arithmetic::div_mod::{lemma_fundamental_div_mod, lemma_fundamental_div_mod_converse};

use crate::{CELLS_X_LEN, CELLS_Y_LEN};

verus! {

/// A movement direction on the grid.
#[derive(Clone, Copy, Debug, PartialEq, Eq, Structural)]
pub enum Direction {
    Left,
    Right,
    Down,
    Up,
}

/// The direction opposite to `d`.
pub open spec fn opposite_spec(d: Direction) -> Direction {
    match d {
        Direction::Left => Direction::Right,
        Direction::Right => Direction::Left,
        Direction::Down => Direction::Up,
        Direction::Up => Direction::Down,
    }
}

impl Direction {
    pub fn opposite(&self) -> (r: Direction)
        ensures
            r == opposite_spec(*self),
    {
        match self {
            Direction::Left => Direction::Right,
            Direction::Right => Direction::Left,
            Direction::Down => Direction::Up,
            Direction::Up => Direction::Down,
        }
    }
}

/// One cell of the grid. A well-formed point always lies inside the grid;
/// `Point::new` is the sole normalization step, so every derived position
/// goes through it.
#[derive(Clone, Copy, Debug, PartialEq, Eq, Structural)]
pub struct Point {
    pub x: i32,
    pub y: i32,
}

/// `p` lies inside the grid. This is the well-formedness invariant of `Point`:
/// every point the library constructs satisfies it.
pub open spec fn in_grid(p: Point) -> bool {
    &&& 0 <= p.x < CELLS_X_LEN
    &&& 0 <= p.y < CELLS_Y_LEN
}

/// The point with both coordinates reduced modulo the grid size
/// (mathematical, always-nonnegative remainder).
pub open spec fn point_new_spec(x: int, y: int) -> Point {
    Point { x: (x % (CELLS_X_LEN as int)) as i32, y: (y % (CELLS_Y_LEN as int)) as i32 }
}

/// The cell one step from `p` in direction `d`, wrapping around the edges.
pub open spec fn neighbor_spec(p: Point, d: Direction) -> Point {
    match d {
        Direction::Left => point_new_spec(p.x - 1, p.y as int),
        Direction::Right => point_new_spec(p.x + 1, p.y as int),
        Direction::Up => point_new_spec(p.x as int, p.y - 1),
        Direction::Down => point_new_spec(p.x as int, p.y + 1),
    }
}

/// Euclidean remainder of `v` modulo `m`: the unique representative of
/// `v`'s class in `[0, m)`, for arbitrarily large or negative `v`.
fn euclid_mod(v: i32, m: i32) -> (r: i32)
    requires
        1 <= m,
    ensures
        r as int == (v as int) % (m as int),
        0 <= r < m,
{
    if v >= 0 {
        v % m
    } else {
        let u: i32 = -(v + 1);
        let d: i32 = u % m;
        let r: i32 = m - 1 - d;
        proof {
            lemma_fundamental_div_mod(u as int, m as int);
            let q = u as int / m as int;
            assert(v as int == (-q - 1) * (m as int) + (r as int)) by (nonlinear_arith)
                requires
                    u as int == (m as int) * q + (d as int),
                    v as int == -(u as int) - 1,
                    r as int == m as int - 1 - d as int,
            ;
            lemma_fundamental_div_mod_converse(v as int, m as int, -q - 1, r as int);
        }
        r
    }
}

impl Point {
    /// Builds the cell for `(x, y)`, normalizing both coordinates into the
    /// grid: the returned coordinates are congruent to the arguments modulo
    /// the grid size and lie inside the grid.
    pub fn new(x: i32, y: i32) -> (p: Point)
        ensures
            p == point_new_spec(x as int, y as int),
            p.x as int % (CELLS_X_LEN as int) == x as int % (CELLS_X_LEN as int),
            p.y as int % (CELLS_Y_LEN as int) == y as int % (CELLS_Y_LEN as int),
            in_grid(p),
    {
        let p = Point { x: euclid_mod(x, CELLS_X_LEN), y: euclid_mod(y, CELLS_Y_LEN) };
        proof {
            lemma_small_mod_identity(p.x as int, CELLS_X_LEN as int);
            lemma_small_mod_identity(p.y as int, CELLS_Y_LEN as int);
        }
        p
    }

    /// The adjacent cell in direction `d`, wrapping around the grid edges.
    /// This is the sole movement primitive.
    pub fn neighbor(&self, direction: Direction) -> (p: Point)
        requires
            in_grid(*self),
        ensures
            p == neighbor_spec(*self, direction),
            in_grid(p),
    {
        match direction {
            Direction::Left => Self::new(self.x - 1, self.y),
            Direction::Right => Self::new(self.x + 1, self.y),
            Direction::Up => Self::new(self.x, self.y - 1),
            Direction::Down => Self::new(self.x, self.y + 1),
        }
    }
}

impl Default for Point {
    /// The origin cell.
    fn default() -> (p: Point)
        ensures
            p == (Point { x: 0, y: 0 }),
    {
        Point { x: 0, y: 0 }
    }
}

/// A value already in `[0, m)` is its own remainder.
proof fn lemma_small_mod_identity(v: int, m: int)
    requires
        0 <= v < m,
    ensures
        v % m == v,
{
    lemma_fundamental_div_mod_converse(v, m, 0, v);
}

/// Toroidal movement is invertible: stepping in a direction and then in the
/// opposite one returns to the starting cell.
pub proof fn lemma_neighbor_opposite(p: Point, d: Direction)
    requires
        in_grid(p),
    ensures
        neighbor_spec(neighbor_spec(p, d), opposite_spec(d)) == p,
{
    lemma_small_mod_identity(p.x as int, CELLS_X_LEN as int);
    lemma_small_mod_identity(p.y as int, CELLS_Y_LEN as int);
    let w = CELLS_X_LEN as int;
    let h = CELLS_Y_LEN as int;
    match d {
        Direction::Left | Direction::Right => {
            lemma_mod_step_back(p.x as int, w);
        },
        Direction::Up | Direction::Down => {
            lemma_mod_step_back(p.y as int, h);
        },
    }
}

/// Stepping a coordinate one unit off the grid and one unit back, with a
/// normalization after each step, is the identity on `[0, m)`.
proof fn lemma_mod_step_back(v: int, m: int)
    requires
        0 <= v < m,
    ensures
        ((v - 1) % m + 1) % m == v,
        ((v + 1) % m - 1) % m == v,
{
    lemma_small_mod_identity(v, m);
    if v == 0 {
        lemma_fundamental_div_mod_converse(v - 1, m, -1, m - 1);
        lemma_fundamental_div_mod_converse(m, m, 1, 0);
    } else {
        lemma_small_mod_identity(v - 1, m);
    }
    if v == m - 1 {
        lemma_fundamental_div_mod_converse(v + 1, m, 1, 0);
        lemma_fundamental_div_mod_converse(-1, m, -1, m - 1);
    } else {
        lemma_small_mod_identity(v + 1, m);
    }
}

/// Normalization lands inside the grid for any input.
pub proof fn lemma_point_new_in_grid(x: int, y: int)
    ensures
        in_grid(point_new_spec(x, y)),
{
    vstd::arithmetic::div_mod::lemma_mod_bound(x, CELLS_X_LEN as int);
    vstd::arithmetic::div_mod::lemma_mod_bound(y, CELLS_Y_LEN as int);
}

/// A neighbor cell lies inside the grid.
pub proof fn lemma_neighbor_in_grid(p: Point, d: Direction)
    ensures
        in_grid(neighbor_spec(p, d)),
{
    match d {
        Direction::Left => lemma_point_new_in_grid(p.x - 1, p.y as int),
        Direction::Right => lemma_point_new_in_grid(p.x + 1, p.y as int),
        Direction::Up => lemma_point_new_in_grid(p.x as int, p.y - 1),
        Direction::Down => lemma_point_new_in_grid(p.x as int, p.y + 1),
    }
}

/// The direction that leads from `p1` to `p2`, preferring the x axis;
/// `Up` when the points coincide.
pub open spec fn direction_between(p1: Point, p2: Point) -> Direction {
    if p1.x < p2.x {
        Direction::Right
    } else if p1.x > p2.x {
        Direction::Left
    } else if p1.y < p2.y {
        Direction::Down
    } else {
        Direction::Up
    }
}

/// An axis-aligned box in pixels, for the collision test of continuous
/// (non-grid) movement.
#[derive(Clone, Copy, Debug, PartialEq, Eq, Structural)]
pub struct Box2 {
    pub x: i32,
    pub y: i32,
    pub w: i32,
    pub h: i32,
}

/// Two axis-aligned boxes overlap: they share some area on both axes.
pub open spec fn overlaps(a: Box2, b: Box2) -> bool {
    &&& a.x < b.x + b.w
    &&& b.x < a.x + a.w
    &&& a.y < b.y + b.h
    &&& b.y < a.y + a.h
}

/// Axis-aligned box overlap test.
pub fn is_collide(rect1: &Box2, rect2: &Box2) -> (r: bool)
    requires
        0 <= rect1.w && 0 <= rect1.h && 0 <= rect2.w && 0 <= rect2.h,
        rect1.x + rect1.w <= i32::MAX,
        rect1.y + rect1.h <= i32::MAX,
        rect2.x + rect2.w <= i32::MAX,
        rect2.y + rect2.h <= i32::MAX,
    ensures
        r == overlaps(*rect1, *rect2),
{
    rect1.x < rect2.x + rect2.w && rect2.x < rect1.x + rect1.w && rect1.y < rect2.y + rect2.h
        && rect2.y < rect1.y + rect1.h
}

/// Returns the direction from `p1` towards `p2`.
pub(crate) fn get_direction(p1: Point, p2: Point) -> (d: Direction)
    ensures
        d == direction_between(p1, p2),
{
    if p1.x < p2.x {
        Direction::Right
    } else if p1.x > p2.x {
        Direction::Left
    } else if p1.y < p2.y {
        Direction::Down
    } else {
        Direction::Up
    }
}

} // verus!
