use button_counter::{DirectionChange, Game, Point};

#[test]
fn snake_moves_right_from_a_new_game() {
    let mut g = Game::new();
    let (tail, head) = g.move_snake();
    assert_eq!(tail, Point { x: 0, y: 0 });
    assert_eq!(head, Point { x: 1, y: 0 });
    let (_, head) = g.move_snake();
    assert_eq!(head, Point { x: 2, y: 0 });
}

#[test]
fn snake_wraps_round_the_grid() {
    let mut g = Game::new();
    g.change_direction(DirectionChange::Left); // now up
    let (_, head) = g.move_snake();
    assert_eq!(head, Point { x: 0, y: 12 });
    g.change_direction(DirectionChange::Left); // now left
    let (_, head) = g.move_snake();
    assert_eq!(head, Point { x: 12, y: 12 });
    g.change_direction(DirectionChange::Left); // now down
    let (_, head) = g.move_snake();
    assert_eq!(head, Point { x: 12, y: 0 });
}

#[test]
fn tail_follows_the_head() {
    let mut g = Game::new();
    let mut heads = Vec::new();
    for _ in 0..8 {
        let (tail, head) = g.move_snake();
        heads.push(head);
        if heads.len() == 8 {
            assert_eq!(tail, heads[0]);
        }
    }
    assert_eq!(heads[7], Point { x: 8, y: 0 });
}

#[test]
fn four_right_turns_come_back_to_the_start() {
    let mut g = Game::new();
    g.change_direction(DirectionChange::Right); // down
    assert_eq!(g.move_snake().1, Point { x: 0, y: 1 });
    g.change_direction(DirectionChange::Right); // left
    assert_eq!(g.move_snake().1, Point { x: 12, y: 1 });
    g.change_direction(DirectionChange::Right); // up
    assert_eq!(g.move_snake().1, Point { x: 12, y: 0 });
    g.change_direction(DirectionChange::Right); // right
    assert_eq!(g.move_snake().1, Point { x: 0, y: 0 });
}

#[test]
fn init_resets_heading_and_lists_squares_to_draw() {
    let mut g = Game::new();
    g.change_direction(DirectionChange::Right); // down
    g.move_snake();
    let pts = g.init();
    assert_eq!(
        pts,
        vec![
            Point { x: 0, y: 0 },
            Point { x: 1, y: 0 },
            Point { x: 2, y: 0 },
            Point { x: 3, y: 0 },
            Point { x: 4, y: 0 },
            Point { x: 5, y: 0 },
            Point { x: 6, y: 1 },
        ]
    );
    // heading is right again
    assert_eq!(g.move_snake().1, Point { x: 1, y: 1 });
}
