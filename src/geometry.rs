//! Toroidal coordinates: arena sizes, directions, positions and wrapped movement.

use vstd::prelude::*;

verus! {

/// Dimensions of the wrap-around arena, in cells.
#[derive(Clone, Copy, Debug, Default, PartialEq, Eq, Structural)]
pub struct Size {
    pub width: u16,
    pub height: u16,
}

/// One of the four directions of movement on the grid.
#[derive(Clone, Copy, Debug, PartialEq, Eq, Structural)]
pub enum Direction {
    North,
    East,
    South,
    West,
}

/// A cell of the arena.
#[derive(Clone, Copy, Debug, PartialEq, Eq, Structural)]
pub struct Pos {
    pub x: u16,
    pub y: u16,
}

/// A signed displacement on the grid.
#[derive(Clone, Copy, Debug, PartialEq, Eq, Structural)]
pub struct PosDelta {
    pub x: i32,
    pub y: i32,
}

/// An arena in which positions can be wrapped: both dimensions are positive.
pub open spec fn size_valid(size: Size) -> bool {
    size.width > 0 && size.height > 0
}

/// The position lies inside the arena.
pub open spec fn in_bounds(p: Pos, size: Size) -> bool {
    p.x < size.width && p.y < size.height
}

/// The reverse of a direction.
pub open spec fn opposite_of(d: Direction) -> Direction {
    match d {
        Direction::North => Direction::South,
        Direction::South => Direction::North,
        Direction::East => Direction::West,
        Direction::West => Direction::East,
    }
}

/// The unit step of a direction; north points towards smaller `y`.
pub open spec fn delta_of(d: Direction) -> PosDelta {
    match d {
        Direction::North => PosDelta { x: 0, y: -1i32 },
        Direction::South => PosDelta { x: 0, y: 1 },
        Direction::East => PosDelta { x: 1, y: 0 },
        Direction::West => PosDelta { x: -1i32, y: 0 },
    }
}

/// One coordinate moved by `d` and brought back into `[0, n)` with the floored remainder.
pub open spec fn wrap_coord(v: int, d: int, n: int) -> int {
    (v + d) % n
}

/// The position `p` moved by `(dx, dy)` on the torus of the given size.
pub open spec fn wrap(p: Pos, dx: int, dy: int, size: Size) -> Pos {
    Pos {
        x: wrap_coord(p.x as int, dx, size.width as int) as u16,
        y: wrap_coord(p.y as int, dy, size.height as int) as u16,
    }
}

impl Direction {
    /// The direction pointing the other way.
    pub fn opposite(&self) -> (r: Direction)
        ensures
            r == opposite_of(*self),
    {
        match self {
            Direction::North => Direction::South,
            Direction::South => Direction::North,
            Direction::East => Direction::West,
            Direction::West => Direction::East,
        }
    }
}

impl From<Direction> for PosDelta {
    fn from(dir: Direction) -> (r: PosDelta)
        ensures
            r == delta_of(dir),
    {
        match dir {
            Direction::North => PosDelta { x: 0, y: -1 },
            Direction::South => PosDelta { x: 0, y: 1 },
            Direction::East => PosDelta { x: 1, y: 0 },
            Direction::West => PosDelta { x: -1, y: 0 },
        }
    }
}

impl vstd::std_specs::convert::FromSpecImpl<Direction> for PosDelta {
    open spec fn obeys_from_spec() -> bool {
        true
    }

    open spec fn from_spec(dir: Direction) -> PosDelta {
        delta_of(dir)
    }
}

/// One coordinate moved by `d` and wrapped into `[0, n)`.
fn wrap_axis(v: u16, d: i32, n: u16) -> (r: u16)
    requires
        n > 0,
    ensures
        r as int == wrap_coord(v as int, d as int, n as int),
        r < n,
{
    let sum: i64 = v as i64 + d as i64;
    match sum.checked_rem_euclid(n as i64) {
        Some(m) => {
            assert(0 <= m < n) by {
                vstd::arithmetic::div_mod::lemma_mod_bound(sum as int, n as int);
            }
            m as u16
        },
        None => {
            assert(false);
            0
        },
    }
}

impl Pos {
    /// This position moved by `delta`, wrapping around the edges of the arena.
    pub fn wrapped_add(&self, delta: PosDelta, size: Size) -> (r: Pos)
        requires
            size_valid(size),
        ensures
            r == wrap(*self, delta.x as int, delta.y as int, size),
            in_bounds(r, size),
    {
        Pos { x: wrap_axis(self.x, delta.x, size.width), y: wrap_axis(self.y, delta.y, size.height) }
    }
}

/// Wrapping always lands inside the arena, whatever the position and however large or
/// negative the displacement.
pub proof fn lemma_wrap_in_bounds(p: Pos, dx: int, dy: int, size: Size)
    requires
        size_valid(size),
    ensures
        0 <= wrap_coord(p.x as int, dx, size.width as int) < size.width,
        0 <= wrap_coord(p.y as int, dy, size.height as int) < size.height,
        in_bounds(wrap(p, dx, dy, size), size),
{
    vstd::arithmetic::div_mod::lemma_mod_bound(p.x + dx, size.width as int);
    vstd::arithmetic::div_mod::lemma_mod_bound(p.y + dy, size.height as int);
}

/// Moving a position of the arena by nothing leaves it where it is.
pub proof fn lemma_wrap_zero(p: Pos, size: Size)
    requires
        size_valid(size),
        in_bounds(p, size),
    ensures
        wrap(p, 0, 0, size) == p,
{
    vstd::arithmetic::div_mod::lemma_small_mod(p.x as nat, size.width as nat);
    vstd::arithmetic::div_mod::lemma_small_mod(p.y as nat, size.height as nat);
}

/// Adding any whole number of arena widths and heights to a displacement does not change
/// where it leads.
pub proof fn lemma_wrap_periodic(p: Pos, dx: int, dy: int, k: int, size: Size)
    requires
        size_valid(size),
    ensures
        wrap(p, dx + k * size.width, dy + k * size.height, size) == wrap(p, dx, dy, size),
{
    let w = size.width as int;
    let h = size.height as int;
    assert(p.x + (dx + k * w) == k * w + (p.x + dx)) by (nonlinear_arith);
    assert(p.y + (dy + k * h) == k * h + (p.y + dy)) by (nonlinear_arith);
    assert(k * w == w * k) by (nonlinear_arith);
    assert(k * h == h * k) by (nonlinear_arith);
    vstd::arithmetic::div_mod::lemma_mod_multiples_vanish(k, p.x + dx, w);
    vstd::arithmetic::div_mod::lemma_mod_multiples_vanish(k, p.y + dy, h);
}

/// Reversing a direction twice gives the direction back.
pub proof fn lemma_opposite_involutive(d: Direction)
    ensures
        opposite_of(opposite_of(d)) == d,
{
}

} // verus!
