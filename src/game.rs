//! The game's phases and how ticks and player intents move between them.

use vstd::prelude::*;
use crate::geometry::{Direction, Size, size_valid};
use crate::haus::{SnekHaus, StepResult, refilled, refilled_from, stepped};
use crate::snek::{Snek, start_body, start_fits, start_head, turned};

verus! {

/// Length of the snake at the start of a game.
pub const INITIAL_LENGTH: u16 = 3;

/// What the player asks for.
#[derive(Clone, Copy, Debug, PartialEq, Eq, Structural)]
pub enum Intent {
    Move(Direction),
    Start,
    Pause,
    Resume,
    Quit,
    Terminate,
}

/// The phase of the game, holding the arena while there is one.
#[derive(Debug)]
pub enum GameState {
    ReadyToStart,
    Playing(SnekHaus),
    Paused(SnekHaus),
    GameOver { haus: SnekHaus, final_score: u16 },
    Exit,
}

/// The whole game: its phase, the best score so far, the arena size offered by the display,
/// and whether an intent was already taken since the last tick.
#[derive(Debug)]
pub struct Game {
    pub state: GameState,
    pub high_score: u16,
    pub arena_size: Option<Size>,
    pub input_taken: bool,
}

/// `h` is a freshly started arena of the given size: the initial snake, no score, and one
/// morsel on a free cell unless the snake leaves none.
pub open spec fn fresh_haus(h: SnekHaus, size: Size) -> bool {
    &&& h.size == size
    &&& h.snek.head == start_head(size, INITIAL_LENGTH)
    &&& h.snek.body@ == start_body(size, INITIAL_LENGTH)
    &&& h.snek.direction == Direction::East
    &&& h.snek.pending_growth == 0
    &&& h.score == 0
    &&& refilled(Seq::empty(), h)
}

/// `next` is the phase after one tick of play on the arena `h`: a collision ends the game with the arena's score, a meal brings a new morsel, and an
/// ordinary move keeps playing.
pub open spec fn ticked(h: SnekHaus, next: GameState) -> bool {
    match next {
        GameState::GameOver { haus, final_score } => {
            &&& stepped(h, haus, StepResult::Collision)
            &&& final_score == haus.score
        },
        GameState::Playing(h2) => {
            ||| stepped(h, h2, StepResult::Ongoing)
            ||| exists|mid: SnekHaus, v: u16|
                #[trigger] stepped(h, mid, StepResult::Nommed(v)) && refilled_from(mid, h2)
        },
        _ => false,
    }
}

/// Whether a start intent can begin a game: an arena size is known and the snake fits in it.
pub open spec fn can_start(g: Game) -> bool {
    match g.arena_size {
        Some(size) => start_fits(size, INITIAL_LENGTH),
        None => false,
    }
}

/// The phase after an intent, for every intent whose outcome does not depend on chance.
pub open spec fn after_intent(s: GameState, i: Intent) -> GameState {
    match s {
        GameState::ReadyToStart => match i {
            Intent::Quit | Intent::Terminate => GameState::Exit,
            _ => s,
        },
        GameState::Playing(h) => match i {
            Intent::Move(d) => GameState::Playing(
                SnekHaus { snek: Snek { direction: turned(h.snek.direction, d), ..h.snek }, ..h },
            ),
            Intent::Pause => GameState::Paused(h),
            Intent::Quit => GameState::GameOver { haus: h, final_score: h.score },
            Intent::Terminate => GameState::Exit,
            _ => s,
        },
        GameState::Paused(h) => match i {
            Intent::Resume => GameState::Playing(h),
            Intent::Quit => GameState::GameOver { haus: h, final_score: h.score },
            Intent::Terminate => GameState::Exit,
            _ => s,
        },
        GameState::GameOver { .. } => match i {
            Intent::Start | Intent::Resume | Intent::Quit => GameState::ReadyToStart,
            Intent::Terminate => GameState::Exit,
            _ => s,
        },
        GameState::Exit => s,
    }
}

impl Game {
    /// A game waiting to start, with the best score so far; no arena size is known yet.
    pub fn new(high_score: u16) -> (r: Game)
        ensures
            r.state is ReadyToStart,
            r.high_score == high_score,
            r.arena_size is None,
            !r.input_taken,
    {
        Game { state: GameState::ReadyToStart, high_score, arena_size: None, input_taken: false }
    }

    /// Records the size of the arena that the display offers.
    pub fn set_arena_size(&mut self, size: Size)
        ensures
            final(self).arena_size == Some(size),
            final(self).state == old(self).state,
            final(self).high_score == old(self).high_score,
            final(self).input_taken == old(self).input_taken,
    {
        self.arena_size = Some(size);
    }

    /// Takes `score` as the best score if it beats it; says whether it did, so that the new
    /// best can be kept.
    pub fn update_high_score(&mut self, score: u16) -> (r: bool)
        ensures
            r == (score > old(self).high_score),
            final(self).high_score == if r { score } else { old(self).high_score },
            final(self).state == old(self).state,
            final(self).arena_size == old(self).arena_size,
            final(self).input_taken == old(self).input_taken,
    {
        if score > self.high_score {
            self.high_score = score;
            true
        } else {
            false
        }
    }

    /// The intent of the start/pause key in the current phase.
    pub fn toggle_intent(&self) -> (r: Intent)
        ensures
            r == match self.state {
                GameState::Playing(_) => Intent::Pause,
                GameState::Paused(_) => Intent::Resume,
                _ => Intent::Start,
            },
    {
        match self.state {
            GameState::Playing(_) => Intent::Pause,
            GameState::Paused(_) => Intent::Resume,
            _ => Intent::Start,
        }
    }

    /// One tick: while playing, the arena takes a step (see `ticked`); at a collision the final
    /// score becomes the best if it beats it, and the result says whether it did. An arena
    /// with no cells, and every phase but play, is left as it is. In every phase the tick
    /// allows the next intent to be taken.
    pub fn update(&mut self) -> (new_high: bool)
        ensures
            !final(self).input_taken,
            final(self).arena_size == old(self).arena_size,
            match old(self).state {
                GameState::Playing(h) if size_valid(h.size) => {
                    &&& ticked(h, final(self).state)
                    &&& match final(self).state {
                        GameState::GameOver { final_score, .. } => {
                            &&& new_high == (final_score > old(self).high_score)
                            &&& final(self).high_score == if new_high {
                                final_score
                            } else {
                                old(self).high_score
                            }
                        },
                        _ => !new_high && final(self).high_score == old(self).high_score,
                    }
                },
                _ => {
                    &&& final(self).state == old(self).state
                    &&& !new_high
                    &&& final(self).high_score == old(self).high_score
                },
            },
    {
        self.input_taken = false;
        let mut state = GameState::Exit;
        std::mem::swap(&mut self.state, &mut state);
        match state {
            GameState::Playing(mut haus) if haus.size.width > 0 && haus.size.height > 0 => {
                match haus.slither_on() {
                    StepResult::Collision => {
                        let final_score = haus.score;
                        let new_high = self.update_high_score(final_score);
                        self.state = GameState::GameOver { haus, final_score };
                        new_high
                    },
                    StepResult::Nommed(_) => {
                        let ghost mid = haus;
                        haus.refill();
                        assert(refilled_from(mid, haus));
                        self.state = GameState::Playing(haus);
                        false
                    },
                    StepResult::Ongoing => {
                        self.state = GameState::Playing(haus);
                        false
                    },
                }
            },
            other => {
                self.state = other;
                false
            },
        }
    }

    /// Applies the player's intent. Only the first intent between two ticks is taken; later
    /// ones are ignored. A start intent before play begins opens a fresh arena when the known
    /// arena size fits the snake (and is ignored otherwise); every other intent moves between
    /// phases as `after_intent` says.
    pub fn handle_input(&mut self, intent: Intent)
        ensures
            final(self).high_score == old(self).high_score,
            final(self).arena_size == old(self).arena_size,
            final(self).input_taken,
            old(self).input_taken ==> final(self).state == old(self).state,
            !old(self).input_taken ==> if old(self).state is ReadyToStart && intent is Start
                && can_start(*old(self)) {
                final(self).state matches GameState::Playing(h) && fresh_haus(
                    h,
                    old(self).arena_size->Some_0,
                )
            } else {
                final(self).state == after_intent(old(self).state, intent)
            },
    {
        if self.input_taken {
            return;
        }
        self.input_taken = true;
        let mut state = GameState::Exit;
        std::mem::swap(&mut self.state, &mut state);
        self.state = match state {
            GameState::ReadyToStart => match intent {
                Intent::Quit | Intent::Terminate => GameState::Exit,
                Intent::Start => match self.arena_size {
                    Some(size) => {
                        let half_length = INITIAL_LENGTH / 2;
                        if size.width > 0 && size.height > 0 && half_length + INITIAL_LENGTH % 2
                            <= size.width / 2 && size.width / 2 + half_length < size.width {
                            let mut haus = SnekHaus::new(size, INITIAL_LENGTH);
                            haus.refill();
                            GameState::Playing(haus)
                        } else {
                            GameState::ReadyToStart
                        }
                    },
                    None => GameState::ReadyToStart,
                },
                _ => GameState::ReadyToStart,
            },
            GameState::Playing(mut haus) => match intent {
                Intent::Move(d) => {
                    haus.change_direction(d);
                    GameState::Playing(haus)
                },
                Intent::Pause => GameState::Paused(haus),
                Intent::Quit => {
                    let final_score = haus.score;
                    GameState::GameOver { haus, final_score }
                },
                Intent::Terminate => GameState::Exit,
                _ => GameState::Playing(haus),
            },
            GameState::Paused(haus) => match intent {
                Intent::Resume => GameState::Playing(haus),
                Intent::Quit => {
                    let final_score = haus.score;
                    GameState::GameOver { haus, final_score }
                },
                Intent::Terminate => GameState::Exit,
                _ => GameState::Paused(haus),
            },
            GameState::GameOver { haus, final_score } => match intent {
                Intent::Start | Intent::Resume | Intent::Quit => GameState::ReadyToStart,
                Intent::Terminate => GameState::Exit,
                _ => GameState::GameOver { haus, final_score },
            },
            GameState::Exit => GameState::Exit,
        };
    }
}

} // verus!
