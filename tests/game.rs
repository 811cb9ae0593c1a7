use snekrs::game::{Game, GameState, Intent};
use snekrs::geometry::{Direction, Pos, Size};
use snekrs::haus::SnekHaus;
use snekrs::high_score::high_score_from_text;
use snekrs::snek::{Morsel, Snek};
use std::collections::VecDeque;

fn playing(haus: SnekHaus, high_score: u16) -> Game {
    let mut game = Game::new(high_score);
    game.state = GameState::Playing(haus);
    game
}

fn haus_of(game: &Game) -> &SnekHaus {
    match &game.state {
        GameState::Playing(h) | GameState::Paused(h) => h,
        GameState::GameOver { haus, .. } => haus,
        _ => panic!("no arena in this phase"),
    }
}

#[test]
fn tick_without_items_moves_the_head() {
    let size = Size { width: 10, height: 10 };
    let mut game = playing(SnekHaus::new(size, 3), 0);
    assert_eq!(haus_of(&game).snek.head, Pos { x: 6, y: 5 });
    assert!(!game.update());
    assert!(matches!(game.state, GameState::Playing(_)));
    let haus = haus_of(&game);
    assert_eq!(haus.snek.head, Pos { x: 7, y: 5 });
    assert_eq!(haus.score, 0);
    assert!(haus.moresels.is_empty());
}

#[test]
fn tick_onto_an_item_scores_and_spawns_another() {
    let size = Size { width: 10, height: 10 };
    let mut haus = SnekHaus::new(size, 3);
    haus.place_morsel(Morsel { pos: Pos { x: 7, y: 5 }, growth_value: 2 });
    let mut game = playing(haus, 0);
    assert!(!game.update());
    assert!(matches!(game.state, GameState::Playing(_)));
    let haus = haus_of(&game);
    assert_eq!(haus.score, 2);
    assert_eq!(haus.snek.pending_growth, 2);
    assert_eq!(haus.snek.body.len(), 3);
    assert_eq!(haus.moresels.len(), 1);
    let m = haus.moresels[0];
    assert!(m.pos.x < 10 && m.pos.y < 10);
    assert!(!haus.snek.would_collide_with_body(m.pos) && m.pos != haus.snek.head);
}

#[test]
fn tick_into_the_body_ends_the_game() {
    let size = Size { width: 10, height: 10 };
    let mut haus = SnekHaus::new(size, 3);
    haus.snek = Snek {
        head: Pos { x: 6, y: 5 },
        body: VecDeque::from([Pos { x: 5, y: 5 }, Pos { x: 7, y: 5 }]),
        direction: Direction::East,
        pending_growth: 0,
    };
    haus.score = 7;
    let mut game = playing(haus, 3);
    assert!(game.update());
    match &game.state {
        GameState::GameOver { haus, final_score } => {
            assert_eq!(*final_score, 7);
            assert_eq!(haus.score, 7);
            assert_eq!(haus.snek.head, Pos { x: 7, y: 5 });
        }
        other => panic!("expected the game to be over, got {:?}", other),
    }
    assert_eq!(game.high_score, 7);
}

#[test]
fn collision_below_the_best_keeps_it() {
    let mut haus = SnekHaus::new(Size { width: 10, height: 10 }, 3);
    haus.snek.body.push_back(Pos { x: 7, y: 5 });
    haus.score = 2;
    let mut game = playing(haus, 9);
    assert!(!game.update());
    assert!(matches!(game.state, GameState::GameOver { final_score: 2, .. }));
    assert_eq!(game.high_score, 9);
}

#[test]
fn start_opens_an_arena_with_one_item() {
    let mut game = Game::new(4);
    game.set_arena_size(Size { width: 10, height: 10 });
    assert_eq!(game.toggle_intent(), Intent::Start);
    game.handle_input(Intent::Start);
    let haus = haus_of(&game);
    assert!(matches!(game.state, GameState::Playing(_)));
    assert_eq!(haus.size, Size { width: 10, height: 10 });
    assert_eq!(haus.snek.head, Pos { x: 6, y: 5 });
    assert_eq!(haus.snek.body, VecDeque::from([Pos { x: 3, y: 5 }, Pos { x: 4, y: 5 }, Pos { x: 5, y: 5 }]));
    assert_eq!(haus.score, 0);
    assert_eq!(haus.moresels.len(), 1);
    assert_eq!(game.high_score, 4);
}

#[test]
fn start_without_a_usable_size_waits() {
    let mut game = Game::new(0);
    game.handle_input(Intent::Start);
    assert!(matches!(game.state, GameState::ReadyToStart));
    game.update();
    game.set_arena_size(Size { width: 3, height: 10 });
    game.handle_input(Intent::Start);
    assert!(matches!(game.state, GameState::ReadyToStart));
}

#[test]
fn only_one_intent_per_tick() {
    let mut game = playing(SnekHaus::new(Size { width: 10, height: 10 }, 3), 0);
    game.handle_input(Intent::Move(Direction::North));
    game.handle_input(Intent::Move(Direction::West));
    assert_eq!(haus_of(&game).snek.direction, Direction::North);
    game.update();
    assert_eq!(haus_of(&game).snek.head, Pos { x: 6, y: 4 });
    game.handle_input(Intent::Move(Direction::West));
    assert_eq!(haus_of(&game).snek.direction, Direction::West);
}

#[test]
fn pause_resume_and_quit() {
    let mut game = playing(SnekHaus::new(Size { width: 10, height: 10 }, 3), 0);
    assert_eq!(game.toggle_intent(), Intent::Pause);
    game.handle_input(Intent::Pause);
    assert!(matches!(game.state, GameState::Paused(_)));
    game.update();
    // Ticks do not move a paused snake.
    assert_eq!(haus_of(&game).snek.head, Pos { x: 6, y: 5 });
    assert_eq!(game.toggle_intent(), Intent::Resume);
    game.handle_input(Intent::Resume);
    assert!(matches!(game.state, GameState::Playing(_)));
    game.update();
    game.handle_input(Intent::Quit);
    assert!(matches!(game.state, GameState::GameOver { final_score: 0, .. }));
    game.update();
    assert_eq!(game.toggle_intent(), Intent::Start);
    game.handle_input(Intent::Start);
    assert!(matches!(game.state, GameState::ReadyToStart));
    game.update();
    game.handle_input(Intent::Terminate);
    assert!(matches!(game.state, GameState::Exit));
}

#[test]
fn quit_before_playing_exits() {
    let mut game = Game::new(0);
    game.handle_input(Intent::Quit);
    assert!(matches!(game.state, GameState::Exit));
}

#[test]
fn paused_game_can_be_quit_and_terminated() {
    let mut game = playing(SnekHaus::new(Size { width: 10, height: 10 }, 3), 0);
    game.handle_input(Intent::Pause);
    game.update();
    game.handle_input(Intent::Move(Direction::North));
    assert!(matches!(game.state, GameState::Paused(_)));
    assert_eq!(haus_of(&game).snek.direction, Direction::East);
    game.update();
    game.handle_input(Intent::Quit);
    assert!(matches!(game.state, GameState::GameOver { .. }));
    game.update();
    game.handle_input(Intent::Terminate);
    assert!(matches!(game.state, GameState::Exit));
}

#[test]
fn best_score_only_rises() {
    let mut game = Game::new(5);
    assert!(!game.update_high_score(5));
    assert_eq!(game.high_score, 5);
    assert!(game.update_high_score(6));
    assert_eq!(game.high_score, 6);
    assert!(!game.update_high_score(1));
    assert_eq!(game.high_score, 6);
}

#[test]
fn saved_best_score_is_read_back() {
    assert_eq!(high_score_from_text(b"42"), 42);
    assert_eq!(high_score_from_text(b" 12\n"), 12);
    assert_eq!(high_score_from_text(b"\t\x0b 9 \r\n\x0c"), 9);
    assert_eq!(high_score_from_text(b"+17"), 17);
    assert_eq!(high_score_from_text(b"007"), 7);
    assert_eq!(high_score_from_text(b"65535"), 65535);
    assert_eq!(high_score_from_text(b"65536"), 0);
    assert_eq!(high_score_from_text(b"123456789"), 0);
    assert_eq!(high_score_from_text(b""), 0);
    assert_eq!(high_score_from_text(b"   "), 0);
    assert_eq!(high_score_from_text(b"+"), 0);
    assert_eq!(high_score_from_text(b"-1"), 0);
    assert_eq!(high_score_from_text(b"1 2"), 0);
    assert_eq!(high_score_from_text(b"12a"), 0);
    // Every Unicode whitespace character is trimmed, as `str::trim` does.
    assert_eq!(high_score_from_text("\u{a0}7".as_bytes()), 7);
    assert_eq!(high_score_from_text("\u{85}1\u{1680}".as_bytes()), 1);
    assert_eq!(high_score_from_text("\u{3000} 42 \u{2029}".as_bytes()), 42);
    assert_eq!(high_score_from_text("\u{2000}\u{200a}\u{202f}\u{205f}9\u{2028}".as_bytes()), 9);
    assert_eq!(high_score_from_text("\u{200b}5".as_bytes()), 0);
    assert_eq!(high_score_from_text("5\u{feff}".as_bytes()), 0);
    assert_eq!(high_score_from_text("1\u{a0}2".as_bytes()), 0);
    for text in [
        "0", " 300 ", "+5", "99999", "x", "\n65535\n", "++1", "+-1", "\u{a0}7", "\u{85}\u{85}8",
        "\u{2001}+3\u{2009}", "\u{180e}4", "\u{2007}\u{3000}65535\u{a0}", "\u{200c}6", "\u{2028}",
    ] {
        let expected: u16 = text.trim().parse().unwrap_or(0);
        assert_eq!(high_score_from_text(text.as_bytes()), expected);
    }
}

#[test]
fn tick_in_an_arena_without_cells_changes_nothing() {
    let mut haus = SnekHaus::new(Size { width: 10, height: 10 }, 3);
    haus.size = Size { width: 0, height: 10 };
    let mut game = playing(haus, 0);
    assert!(!game.update());
    assert_eq!(haus_of(&game).snek.head, Pos { x: 6, y: 5 });
}
