//! The arena: the snake, the morsels lying around and the score, and one step of play.

use rand::Rng;
use vstd::prelude::*;
use crate::geometry::{Direction, Pos, Size, in_bounds, size_valid};
use crate::snek::{
    Morsel, Snek, capped_add, next_body, next_growth, next_head, start_body, start_fits, start_head,
    turned,
};

verus! {

/// The largest growth value a spawned morsel can have.
pub const MAX_GROWTH: u16 = 5;

/// How many random cells are tried before the arena is searched cell by cell.
pub const PLACEMENT_ATTEMPTS: u32 = 256;

/// What one step of play brought.
#[derive(Clone, Copy, Debug, PartialEq, Eq, Structural)]
pub enum StepResult {
    /// The snake moved and nothing else happened.
    Ongoing,
    /// The snake ate a morsel worth this much.
    Nommed(u16),
    /// The snake ran into its own body.
    Collision,
}

/// One arena of play.
#[derive(Debug)]
pub struct SnekHaus {
    pub size: Size,
    pub snek: Snek,
    pub moresels: Vec<Morsel>,
    pub score: u16,
}

/// `i` is the first index of `ms` holding a morsel at `p`.
pub open spec fn first_morsel_at(ms: Seq<Morsel>, p: Pos, i: int) -> bool {
    &&& 0 <= i < ms.len()
    &&& ms[i].pos == p
    &&& forall|j: int| 0 <= j < i ==> (#[trigger] ms[j]).pos != p
}

/// Some morsel of `ms` lies at `p`.
pub open spec fn has_morsel_at(ms: Seq<Morsel>, p: Pos) -> bool {
    exists|i: int| 0 <= i < ms.len() && (#[trigger] ms[i]).pos == p
}

/// `ms` with its `i`-th entry taken out and the last one moved into its place.
pub open spec fn swap_removed(ms: Seq<Morsel>, i: int) -> Seq<Morsel> {
    ms.update(i, ms.last()).drop_last()
}

/// The cell is taken by the snake's head or one of its body segments.
pub open spec fn occupied(s: Snek, p: Pos) -> bool {
    s.head == p || s.body@.contains(p)
}

/// `m` may be placed: on a cell of the arena that the snake leaves free, with a growth value
/// from 1 to `MAX_GROWTH`.
pub open spec fn spawnable(s: Snek, size: Size, m: Morsel) -> bool {
    &&& in_bounds(m.pos, size)
    &&& !occupied(s, m.pos)
    &&& 1 <= m.growth_value <= MAX_GROWTH
}

/// The snake covers every cell of the arena.
pub open spec fn saturated(s: Snek, size: Size) -> bool {
    forall|p: Pos| in_bounds(p, size) ==> #[trigger] occupied(s, p)
}

/// `h` holds the morsels `before` and one more that may be placed, or, when the snake covers
/// the whole arena, just `before`.
pub open spec fn refilled(before: Seq<Morsel>, h: SnekHaus) -> bool {
    if saturated(h.snek, h.size) {
        h.moresels@ =~= before
    } else {
        &&& h.moresels@.len() == before.len() + 1
        &&& h.moresels@.drop_last() =~= before
        &&& spawnable(h.snek, h.size, h.moresels@.last())
    }
}

/// `next` is `mid` after a new morsel was placed, if the snake left a free cell.
pub open spec fn refilled_from(mid: SnekHaus, next: SnekHaus) -> bool {
    &&& next.size == mid.size
    &&& next.snek.head == mid.snek.head
    &&& next.snek.body@ == mid.snek.body@
    &&& next.snek.direction == mid.snek.direction
    &&& next.snek.pending_growth == mid.snek.pending_growth
    &&& next.score == mid.score
    &&& refilled(mid.moresels@, next)
}

/// Relies on rand's `thread_rng` and `Rng::gen_range`: a number drawn from `low..high`. The
/// range must not be empty, as `gen_range` panics on an empty one.
#[verifier::external_body]
fn random_range(low: u16, high: u16) -> (r: u16)
    requires
        low < high,
    ensures
        low <= r < high,
{
    rand::thread_rng().gen_range(low..high)
}

/// `post` is `pre` after one step of play that brought `r`. The snake moves; the step is a
/// collision exactly when the new head lands on the moved body, and then nothing else changes.
/// Otherwise it eats exactly when a morsel lies under the new head: the first such morsel is
/// taken out, and its value goes to the score and to the pending growth.
pub open spec fn stepped(pre: SnekHaus, post: SnekHaus, r: StepResult) -> bool {
    let h = next_head(pre.snek, pre.size);
    let b = next_body(pre.snek);
    let g = next_growth(pre.snek);
    let ms = pre.moresels@;
    &&& post.size == pre.size
    &&& post.snek.head == h
    &&& post.snek.body@ == b
    &&& post.snek.direction == pre.snek.direction
    &&& (r is Collision <==> b.contains(h))
    &&& (r is Nommed <==> !b.contains(h) && has_morsel_at(ms, h))
    &&& (r is Ongoing <==> !b.contains(h) && !has_morsel_at(ms, h))
    &&& match r {
        StepResult::Nommed(v) => exists|i: int|
            {
                &&& first_morsel_at(ms, h, i)
                &&& v == ms[i].growth_value
                &&& post.moresels@ == swap_removed(ms, i)
                &&& post.score == capped_add(pre.score as int, v as int)
                &&& post.snek.pending_growth == capped_add(g, v as int)
            },
        _ => {
            &&& post.moresels@ == ms
            &&& post.score == pre.score
            &&& post.snek.pending_growth == g
        },
    }
}

/// A step never lowers the score: it grows by the value eaten, up to the largest `u16`, and
/// stays as it was otherwise.
pub proof fn lemma_step_score(pre: SnekHaus, post: SnekHaus, r: StepResult)
    requires
        stepped(pre, post, r),
    ensures
        post.score >= pre.score,
        r matches StepResult::Nommed(v) ==> post.score == capped_add(pre.score as int, v as int),
        !(r is Nommed) ==> post.score == pre.score,
{
}

impl SnekHaus {
    /// An arena of the given size with a fresh snake of `initial_length` cells, no morsels and
    /// no score.
    pub fn new(size: Size, initial_length: u16) -> (r: SnekHaus)
        requires
            start_fits(size, initial_length),
        ensures
            r.size == size,
            r.snek.head == start_head(size, initial_length),
            r.snek.body@ == start_body(size, initial_length),
            r.snek.direction == Direction::East,
            r.snek.pending_growth == 0,
            r.moresels@.len() == 0,
            r.score == 0,
    {
        SnekHaus { size, snek: Snek::new(size, initial_length), moresels: Vec::new(), score: 0 }
    }

    /// Eats the first morsel lying under the head, if any: it is taken out (the last morsel
    /// takes its place), its value is added to the score and to the snake's pending growth,
    /// and the value is returned.
    pub fn check_nomming(&mut self) -> (r: Option<u16>)
        ensures
            final(self).size == old(self).size,
            final(self).snek.head == old(self).snek.head,
            final(self).snek.body@ == old(self).snek.body@,
            final(self).snek.direction == old(self).snek.direction,
            match r {
                Some(v) => exists|i: int|
                    {
                        &&& first_morsel_at(old(self).moresels@, old(self).snek.head, i)
                        &&& v == old(self).moresels@[i].growth_value
                        &&& final(self).moresels@ == swap_removed(old(self).moresels@, i)
                        &&& final(self).score == capped_add(old(self).score as int, v as int)
                        &&& final(self).snek.pending_growth == capped_add(
                            old(self).snek.pending_growth as int,
                            v as int,
                        )
                    },
                None => {
                    &&& !has_morsel_at(old(self).moresels@, old(self).snek.head)
                    &&& final(self).moresels@ == old(self).moresels@
                    &&& final(self).score == old(self).score
                    &&& final(self).snek.pending_growth == old(self).snek.pending_growth
                },
            },
    {
        let n = self.moresels.len();
        let mut i: usize = 0;
        while i < n
            invariant
                *self == *old(self),
                n == self.moresels@.len(),
                i <= n,
                forall|j: int| 0 <= j < i ==> (#[trigger] self.moresels@[j]).pos != self.snek.head,
            decreases n - i,
        {
            if self.moresels[i].pos == self.snek.head {
                assert(first_morsel_at(self.moresels@, self.snek.head, i as int));
                let morsel = self.moresels.swap_remove(i);
                let score_increase = morsel.growth_value;
                self.score = self.score.saturating_add(score_increase);
                self.snek.snack(morsel);
                assert(first_morsel_at(old(self).moresels@, old(self).snek.head, i as int));
                assert(self.moresels@ == swap_removed(old(self).moresels@, i as int));
                return Some(score_increase);
            }
            i = i + 1;
        }
        None
    }

    /// Whether the head sits on one of the body segments.
    pub fn check_snek_hit_itself(&self) -> (r: bool)
        ensures
            r == self.snek.body@.contains(self.snek.head),
    {
        self.snek.would_collide_with_body(self.snek.head)
    }

    /// Moves the snake one cell within this arena.
    pub fn move_snek(&mut self)
        requires
            size_valid(old(self).size),
        ensures
            final(self).size == old(self).size,
            final(self).snek.head == next_head(old(self).snek, old(self).size),
            final(self).snek.body@ == next_body(old(self).snek),
            final(self).snek.pending_growth == next_growth(old(self).snek),
            final(self).snek.direction == old(self).snek.direction,
            final(self).moresels@ == old(self).moresels@,
            final(self).score == old(self).score,
    {
        self.snek.slither(self.size);
    }

    /// One step of play: the snake moves; if its head then lies on its body the step is a
    /// collision and nothing else changes; otherwise a morsel under the head is eaten.
    pub fn slither_on(&mut self) -> (r: StepResult)
        requires
            size_valid(old(self).size),
        ensures
            stepped(*old(self), *final(self), r),
    {
        self.move_snek();

        if self.check_snek_hit_itself() {
            return StepResult::Collision;
        }

        match self.check_nomming() {
            Some(score_increase) => StepResult::Nommed(score_increase),
            None => StepResult::Ongoing,
        }
    }

    /// Asks the snake to turn; reversing or keeping the course is ignored.
    pub fn change_direction(&mut self, new_direction: Direction)
        ensures
            *final(self) == (SnekHaus {
                snek: Snek { direction: turned(old(self).snek.direction, new_direction), ..old(self).snek },
                ..*old(self)
            }),
    {
        self.snek.change_direction(new_direction);
    }

    /// The first cell, column by column, that the snake does not occupy.
    fn first_free_cell(&self) -> (r: Option<Pos>)
        requires
            size_valid(self.size),
        ensures
            match r {
                Some(p) => in_bounds(p, self.size) && !occupied(self.snek, p),
                None => forall|p: Pos| in_bounds(p, self.size) ==> #[trigger] occupied(self.snek, p),
            },
    {
        let mut x: u16 = 0;
        while x < self.size.width
            invariant
                x <= self.size.width,
                forall|p: Pos|
                    in_bounds(p, self.size) && p.x < x ==> #[trigger] occupied(self.snek, p),
            decreases self.size.width - x,
        {
            let mut y: u16 = 0;
            while y < self.size.height
                invariant
                    x < self.size.width,
                    y <= self.size.height,
                    forall|p: Pos|
                        in_bounds(p, self.size) && p.x < x ==> #[trigger] occupied(self.snek, p),
                    forall|p: Pos|
                        in_bounds(p, self.size) && p.x == x && p.y < y ==> #[trigger] occupied(
                            self.snek,
                            p,
                        ),
                decreases self.size.height - y,
            {
                if self.is_free_cell(Pos { x, y }) {
                    return Some(Pos { x, y });
                }
                y = y + 1;
            }
            x = x + 1;
        }
        None
    }

    /// A new morsel on a cell the snake does not occupy, with a growth value from 1 to
    /// `MAX_GROWTH`. Random cells are drawn until one is free, and then a random growth value
    /// (`morsel_from_draw` makes the morsel); after `PLACEMENT_ATTEMPTS` taken cells the arena
    /// is searched cell by cell. `None` comes only when the snake fills the whole arena.
    pub fn new_morsel(&self) -> (r: Option<Morsel>)
        requires
            size_valid(self.size),
        ensures
            match r {
                Some(m) => spawnable(self.snek, self.size, m),
                None => saturated(self.snek, self.size),
            },
    {
        let mut attempt: u32 = 0;
        while attempt < PLACEMENT_ATTEMPTS
            invariant
                size_valid(self.size),
            decreases PLACEMENT_ATTEMPTS - attempt,
        {
            let x = random_range(0, self.size.width);
            let y = random_range(0, self.size.height);
            if self.is_free_cell(Pos { x, y }) {
                let growth_value = random_range(1, MAX_GROWTH + 1);
                return self.morsel_from_draw(x, y, growth_value);
            }
            attempt = attempt + 1;
        }
        match self.first_free_cell() {
            Some(pos) => {
                let growth_value = random_range(1, MAX_GROWTH + 1);
                self.morsel_from_draw(pos.x, pos.y, growth_value)
            },
            None => None,
        }
    }

    /// Whether `pos` lies in the arena and the snake leaves it free.
    pub fn is_free_cell(&self, pos: Pos) -> (r: bool)
        ensures
            r == (in_bounds(pos, self.size) && !occupied(self.snek, pos)),
    {
        pos.x < self.size.width && pos.y < self.size.height
            && !self.snek.would_collide_with_body(pos) && !self.snek.would_collide_with_head(pos)
    }

    /// The morsel made of a drawn cell `(x, y)` and a drawn growth value: there is one exactly
    /// when the cell lies in the arena and the snake leaves it free.
    pub fn morsel_from_draw(&self, x: u16, y: u16, growth_value: u16) -> (r: Option<Morsel>)
        ensures
            r == if in_bounds(Pos { x, y }, self.size) && !occupied(self.snek, Pos { x, y }) {
                Some(Morsel { pos: Pos { x, y }, growth_value })
            } else {
                None
            },
    {
        if self.is_free_cell(Pos { x, y }) {
            Some(Morsel { pos: Pos { x, y }, growth_value })
        } else {
            None
        }
    }

    /// Adds a new morsel on a free cell, if the snake leaves one.
    pub(crate) fn refill(&mut self)
        requires
            size_valid(old(self).size),
        ensures
            final(self).size == old(self).size,
            final(self).snek.head == old(self).snek.head,
            final(self).snek.body@ == old(self).snek.body@,
            final(self).snek.direction == old(self).snek.direction,
            final(self).snek.pending_growth == old(self).snek.pending_growth,
            final(self).score == old(self).score,
            refilled(old(self).moresels@, *final(self)),
    {
        match self.new_morsel() {
            Some(morsel) => {
                self.place_morsel(morsel);
                assert(self.moresels@.drop_last() =~= old(self).moresels@);
            },
            None => {},
        }
    }

    /// Puts a morsel into the arena. It must not lie under the snake.
    pub fn place_morsel(&mut self, morsel: Morsel)
        requires
            !occupied(old(self).snek, morsel.pos),
        ensures
            final(self).moresels@ == old(self).moresels@.push(morsel),
            final(self).size == old(self).size,
            final(self).snek.head == old(self).snek.head,
            final(self).snek.body@ == old(self).snek.body@,
            final(self).snek.direction == old(self).snek.direction,
            final(self).snek.pending_growth == old(self).snek.pending_growth,
            final(self).score == old(self).score,
    {
        self.moresels.push(morsel);
    }
}

} // verus!
