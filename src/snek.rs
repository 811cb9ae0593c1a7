//! The moving, growing actor: a head, a body of older segments, a facing and pending growth.

use std::collections::VecDeque;
use vstd::prelude::*;
use crate::geometry::{Direction, Pos, Size, delta_of, opposite_of, wrap, size_valid, in_bounds};

verus! {

/// The snake. `body` lists the segments behind the head, oldest first.
#[derive(Debug)]
pub struct Snek {
    pub head: Pos,
    pub body: VecDeque<Pos>,
    pub direction: Direction,
    pub pending_growth: u16,
}

/// A consumable item on a cell, worth `growth_value` points and as many cells of growth.
#[derive(Clone, Copy, Debug, PartialEq, Eq, Structural)]
pub struct Morsel {
    pub pos: Pos,
    pub growth_value: u16,
}

/// A segment of `initial_length` cells fits centred in the arena: its leftmost cell does not
/// fall off the left edge and the head stays left of the right edge.
pub open spec fn start_fits(size: Size, initial_length: u16) -> bool {
    &&& size_valid(size)
    &&& initial_length / 2 + initial_length % 2 <= size.width / 2
    &&& size.width / 2 + initial_length / 2 < size.width
}

/// Column of the `i`-th body segment of a freshly created snake.
pub open spec fn start_body_x(size: Size, initial_length: u16, i: int) -> int {
    size.width / 2 - initial_length / 2 - initial_length % 2 + i
}

/// Column of the head of a freshly created snake.
pub open spec fn start_head_x(size: Size, initial_length: u16) -> int {
    size.width / 2 + initial_length / 2
}

/// The head of a freshly created snake.
pub open spec fn start_head(size: Size, initial_length: u16) -> Pos {
    Pos { x: start_head_x(size, initial_length) as u16, y: size.height / 2 }
}

/// The body of a freshly created snake: consecutive cells of the middle row, left to right.
pub open spec fn start_body(size: Size, initial_length: u16) -> Seq<Pos> {
    Seq::new(
        initial_length as nat,
        |i: int| Pos { x: start_body_x(size, initial_length, i) as u16, y: size.height / 2 },
    )
}

/// Adding `amount` to a growth counter or score, stopping at the largest `u16`.
pub open spec fn capped_add(a: int, amount: int) -> int {
    if a + amount > u16::MAX {
        u16::MAX as int
    } else {
        a + amount
    }
}

/// The facing after a requested turn: reversing or keeping the course is ignored.
pub open spec fn turned(current: Direction, requested: Direction) -> Direction {
    if requested != current && opposite_of(requested) != current {
        requested
    } else {
        current
    }
}

/// Where the head goes on the next move.
pub open spec fn next_head(s: Snek, size: Size) -> Pos {
    wrap(s.head, delta_of(s.direction).x as int, delta_of(s.direction).y as int, size)
}

/// The body after the next move: the old head joins at the new end, and the oldest segment
/// leaves unless growth is pending.
pub open spec fn next_body(s: Snek) -> Seq<Pos> {
    if s.pending_growth > 0 {
        s.body@.push(s.head)
    } else {
        s.body@.push(s.head).drop_first()
    }
}

/// The growth still pending after the next move.
pub open spec fn next_growth(s: Snek) -> int {
    if s.pending_growth > 0 {
        s.pending_growth - 1
    } else {
        0
    }
}

impl Snek {
    /// A horizontal snake of `initial_length` body cells centred in the arena, head rightmost,
    /// facing east, with no pending growth.
    pub fn new(size: Size, initial_length: u16) -> (r: Snek)
        requires
            start_fits(size, initial_length),
        ensures
            r.head == start_head(size, initial_length),
            r.body@ == start_body(size, initial_length),
            r.direction == Direction::East,
            r.pending_growth == 0,
            in_bounds(r.head, size),
            forall|i: int| 0 <= i < r.body@.len() ==> in_bounds(#[trigger] r.body@[i], size),
    {
        let mid_x = size.width / 2;
        let mid_y = size.height / 2;
        let half_length = initial_length / 2;
        let length_rounding = initial_length % 2;

        let mut body: VecDeque<Pos> = VecDeque::new();
        let mut i: u16 = 0;
        while i < initial_length
            invariant
                start_fits(size, initial_length),
                mid_x == size.width / 2,
                mid_y == size.height / 2,
                half_length == initial_length / 2,
                length_rounding == initial_length % 2,
                i <= initial_length,
                body@.len() == i,
                forall|j: int|
                    0 <= j < i ==> #[trigger] body@[j] == (Pos {
                        x: start_body_x(size, initial_length, j) as u16,
                        y: size.height / 2,
                    }),
            decreases initial_length - i,
        {
            body.push_back(Pos { x: mid_x - half_length - length_rounding + i, y: mid_y });
            i = i + 1;
        }
        let head = Pos { x: mid_x + half_length, y: mid_y };
        assert(body@ =~= start_body(size, initial_length));

        Snek { head, body, direction: Direction::East, pending_growth: 0 }
    }

    /// Turns to `new_direction`, unless that is the current facing or its reverse.
    pub fn change_direction(&mut self, new_direction: Direction)
        ensures
            *final(self) == (Snek { direction: turned(old(self).direction, new_direction), ..*old(self) }),
    {
        if new_direction != self.direction && new_direction.opposite() != self.direction {
            self.direction = new_direction;
        }
    }

    /// Moves one cell forward: the old head becomes the newest body segment, and the oldest
    /// segment is dropped unless growth is pending, in which case one unit of it is used up.
    pub fn slither(&mut self, arena_size: Size)
        requires
            size_valid(arena_size),
        ensures
            final(self).head == next_head(*old(self), arena_size),
            final(self).body@ == next_body(*old(self)),
            final(self).pending_growth == next_growth(*old(self)),
            final(self).direction == old(self).direction,
    {
        let new_head = self.head.wrapped_add(self.direction.into(), arena_size);

        self.body.push_back(self.head);

        self.head = new_head;

        if self.pending_growth > 0 {
            self.pending_growth = self.pending_growth - 1;
        } else {
            self.body.pop_front();
        }
    }

    /// Whether `pos` is one of the body segments (the head is not counted).
    pub fn would_collide_with_body(&self, pos: Pos) -> (r: bool)
        ensures
            r == self.body@.contains(pos),
    {
        let n = self.body.len();
        let mut i: usize = 0;
        while i < n
            invariant
                n == self.body@.len(),
                i <= n,
                forall|j: int| 0 <= j < i ==> self.body@[j] != pos,
            decreases n - i,
        {
            if self.body[i] == pos {
                return true;
            }
            i = i + 1;
        }
        false
    }

    /// Whether `pos` is the head.
    pub fn would_collide_with_head(&self, pos: Pos) -> (r: bool)
        ensures
            r == (self.head == pos),
    {
        self.head == pos
    }

    /// Adds the morsel's growth value to the pending growth, which later moves use up one
    /// cell at a time.
    pub fn snack(&mut self, morsel: Morsel)
        ensures
            final(self).pending_growth == capped_add(
                old(self).pending_growth as int,
                morsel.growth_value as int,
            ),
            final(self).head == old(self).head,
            final(self).body@ == old(self).body@,
            final(self).direction == old(self).direction,
    {
        self.pending_growth = self.pending_growth.saturating_add(morsel.growth_value);
    }
}

/// A move without pending growth keeps the body length: the oldest segment leaves and the
/// previous head becomes the newest segment (a body without segments stays without). A move with growth `g > 0` pending lengthens the
/// body by one and leaves `g - 1` pending.
pub proof fn lemma_advance_length(s: Snek)
    ensures
        s.pending_growth == 0 ==> {
            &&& next_body(s).len() == s.body@.len()
            &&& s.body@.len() > 0 ==> next_body(s) =~= s.body@.drop_first().push(s.head)
        },
        s.pending_growth > 0 ==> {
            &&& next_body(s).len() == s.body@.len() + 1
            &&& next_growth(s) == s.pending_growth - 1
            &&& next_body(s).last() == s.head
        },
{
}

} // verus!
