use snekrs::geometry::{Direction, Pos, Size};
use snekrs::snek::{Morsel, Snek};
use std::collections::VecDeque;

#[test]
fn test_collision_detection() {
    let snek = Snek {
        head: Pos { x: 5, y: 5 },
        body: VecDeque::from([Pos { x: 5, y: 6 }, Pos { x: 5, y: 7 }, Pos { x: 6, y: 7 }]),
        direction: Direction::North,
        pending_growth: 0,
    };

    assert!(snek.would_collide_with_body(Pos { x: 5, y: 6 }));
    assert!(snek.would_collide_with_body(Pos { x: 6, y: 7 }));
    assert!(!snek.would_collide_with_body(Pos { x: 5, y: 5 }));
    assert!(!snek.would_collide_with_body(Pos { x: 4, y: 6 }));
}

#[test]
fn test_snacking() {
    let mut snek = Snek {
        head: Pos { x: 5, y: 5 },
        body: VecDeque::new(),
        direction: Direction::North,
        pending_growth: 0,
    };

    let morsel = Morsel { pos: Pos { x: 5, y: 4 }, growth_value: 3 };

    snek.snack(morsel);
    assert_eq!(snek.pending_growth, 3);

    snek.snack(Morsel { pos: Pos { x: 0, y: 0 }, growth_value: 2 });
    assert_eq!(snek.pending_growth, 5);
}

#[test]
fn test_new_odd_snek() {
    let size = Size { width: 10, height: 10 };

    let snek = Snek::new(size, 3);
    println!("Odd length snek:");
    println!("  head: {:?}", snek.head);
    println!("  body: {:?}", snek.body);

    let body: Vec<_> = snek.body.iter().collect();
    println!("  body segments:");
    for (i, pos) in body.iter().enumerate() {
        println!("    segment {}: {:?}", i, pos);
    }

    assert_eq!(snek.head, Pos { x: 6, y: 5 });
    assert_eq!(snek.body.len(), 3);
    assert_eq!(snek.body[0], Pos { x: 3, y: 5 });
    assert_eq!(snek.body[1], Pos { x: 4, y: 5 });
    assert_eq!(snek.body[2], Pos { x: 5, y: 5 });
}

#[test]
fn test_new_snek_even() {
    let size = Size { width: 10, height: 10 };
    let snek = Snek::new(size, 4);

    println!("Even length snek:");
    println!("  head: {:?}", snek.head);
    println!("  body: {:?}", snek.body);
    println!("  body segments:");
    for (i, pos) in snek.body.iter().enumerate() {
        println!("    segment {}: {:?}", i, pos);
    }

    assert_eq!(snek.head, Pos { x: 7, y: 5 });
    assert_eq!(snek.body.len(), 4);
    assert_eq!(snek.body[0], Pos { x: 3, y: 5 });
    assert_eq!(snek.body[1], Pos { x: 4, y: 5 });
    assert_eq!(snek.body[2], Pos { x: 5, y: 5 });
    assert_eq!(snek.body[3], Pos { x: 6, y: 5 });
    assert_eq!(snek.direction, Direction::East);
    assert_eq!(snek.pending_growth, 0);
}

#[test]
fn test_snek_movement() {
    let size = Size { width: 10, height: 10 };
    let mut snek = Snek::new(size, 3);
    println!("Starting snek: {:?}", snek);

    let initial_head = snek.head;
    let initial_body: Vec<Pos> = snek.body.iter().cloned().collect();

    snek.slither(size);

    println!("Moved snek: {:?}", snek);

    assert_eq!(
        snek.head,
        Pos { x: initial_head.x + 1, y: initial_head.y },
        "Head position should be one step east of old head"
    );

    assert_eq!(snek.body.back(), Some(&initial_head), "Old head is now the highest body segment");

    assert_eq!(initial_body[2], snek.body[1], "Middle segments moved up 2 to 1");
    assert_eq!(initial_body[1], snek.body[0], "Middle segments moved up 1 to 0");

    assert_eq!(snek.body.len(), 3, "Length remained the same");
    assert!(!snek.body.contains(&initial_body[0]), "Tail was removed");
}

#[test]
fn snek_new_with_no_body() {
    let snek = Snek::new(Size { width: 1, height: 1 }, 0);
    assert_eq!(snek.head, Pos { x: 0, y: 0 });
    assert!(snek.body.is_empty());
}

#[test]
fn change_direction_ignores_same_and_reverse() {
    let mut snek = Snek::new(Size { width: 10, height: 10 }, 3);
    snek.change_direction(Direction::East);
    assert_eq!(snek.direction, Direction::East);
    snek.change_direction(Direction::West);
    assert_eq!(snek.direction, Direction::East);
    snek.change_direction(Direction::North);
    assert_eq!(snek.direction, Direction::North);
    snek.change_direction(Direction::South);
    assert_eq!(snek.direction, Direction::North);
    snek.change_direction(Direction::West);
    assert_eq!(snek.direction, Direction::West);
}

#[test]
fn slither_with_pending_growth_keeps_the_tail() {
    let size = Size { width: 10, height: 10 };
    let mut snek = Snek::new(size, 3);
    snek.pending_growth = 2;
    snek.slither(size);
    assert_eq!(snek.body.len(), 4);
    assert_eq!(snek.pending_growth, 1);
    assert_eq!(snek.body[0], Pos { x: 3, y: 5 });
    assert_eq!(snek.body[3], Pos { x: 6, y: 5 });
    assert_eq!(snek.head, Pos { x: 7, y: 5 });
    snek.slither(size);
    snek.slither(size);
    assert_eq!(snek.body.len(), 5);
    assert_eq!(snek.pending_growth, 0);
    assert_eq!(snek.head, Pos { x: 9, y: 5 });
}

#[test]
fn slither_wraps_around_the_edge() {
    let size = Size { width: 10, height: 10 };
    let mut snek = Snek {
        head: Pos { x: 3, y: 0 },
        body: VecDeque::from([Pos { x: 3, y: 1 }]),
        direction: Direction::North,
        pending_growth: 0,
    };
    snek.slither(size);
    assert_eq!(snek.head, Pos { x: 3, y: 9 });
    assert_eq!(snek.body, VecDeque::from([Pos { x: 3, y: 0 }]));
}

#[test]
fn snack_stops_at_the_largest_growth() {
    let mut snek = Snek::new(Size { width: 10, height: 10 }, 3);
    snek.pending_growth = u16::MAX - 1;
    snek.snack(Morsel { pos: Pos { x: 0, y: 0 }, growth_value: 5 });
    assert_eq!(snek.pending_growth, u16::MAX);
}

#[test]
fn head_collision() {
    let snek = Snek::new(Size { width: 10, height: 10 }, 3);
    assert!(snek.would_collide_with_head(Pos { x: 6, y: 5 }));
    assert!(!snek.would_collide_with_head(Pos { x: 5, y: 5 }));
}
