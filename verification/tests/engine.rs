use cobrust::snake::{Direction, GameMode, Pos, Snake};

fn pos(x: i64, y: i64) -> Pos {
    Pos { x, y }
}

/// A hand-built play state on a 40x40 board; the filler points keep the
/// body even-length and far from the head.
fn play_state(coords: Vec<Pos>, apple: Pos, direction: Direction) -> Snake {
    Snake {
        coords,
        apple_coords: apple,
        game_mode: GameMode::Play,
        direction,
        score: 0,
    }
}

#[test]
fn new_initial_state() {
    let s = Snake::new(40, 40);
    assert_eq!(
        s.coords,
        vec![
            pos(20, 20),
            pos(20, 19),
            pos(20, 18),
            pos(20, 17),
            pos(20, 16),
            pos(20, 15)
        ]
    );
    assert_eq!(s.direction, Direction::Up);
    assert_eq!(s.game_mode, GameMode::Play);
    assert_eq!(s.score, 0);
    assert!(0 < s.apple_coords.x && s.apple_coords.x < 40);
    assert!(0 < s.apple_coords.y && s.apple_coords.y < 40);
}

#[test]
fn new_minimum_board() {
    let s = Snake::new(12, 12);
    assert_eq!(s.coords[0], pos(6, 6));
    assert_eq!(s.coords[5], pos(6, 1));
    assert!(0 < s.apple_coords.x && s.apple_coords.x < 12);
    assert!(0 < s.apple_coords.y && s.apple_coords.y < 12);
}

#[test]
fn eat_apple_grows_and_scores() {
    let mut s = Snake::new(40, 40);
    s.apple_coords = pos(20, 22);
    s.forward(&40, &40);
    assert_eq!(s.coords.len(), 12);
    assert_eq!(s.coords[0], pos(20, 22));
    assert_eq!(s.coords[1], pos(20, 21));
    assert_eq!(s.coords[2], pos(20, 20));
    assert_eq!(s.coords[7], pos(20, 15));
    assert_eq!(s.coords[8], pos(-1, -1));
    assert_eq!(s.coords[11], pos(-1, -1));
    assert_eq!(s.score, 10);
    assert_eq!(s.game_mode, GameMode::Play);
    assert!(0 < s.apple_coords.x && s.apple_coords.x < 40);
    assert!(0 < s.apple_coords.y && s.apple_coords.y < 40);
}

#[test]
fn plain_move_slides_body() {
    let mut s = Snake::new(40, 40);
    s.apple_coords = pos(5, 5);
    s.forward(&40, &40);
    assert_eq!(
        s.coords,
        vec![
            pos(20, 22),
            pos(20, 21),
            pos(20, 20),
            pos(20, 19),
            pos(20, 18),
            pos(20, 17)
        ]
    );
    assert_eq!(s.score, 0);
    assert_eq!(s.game_mode, GameMode::Play);
    assert_eq!(s.apple_coords, pos(5, 5));
}

#[test]
fn self_collision_on_head() {
    let coords = vec![pos(20, 20), pos(20, 19), pos(20, 22), pos(20, 21)];
    let mut s = play_state(coords.clone(), pos(5, 5), Direction::Up);
    s.forward(&40, &40);
    assert_eq!(s.game_mode, GameMode::Lost);
    assert_eq!(s.coords, coords);
    assert_eq!(s.score, 0);
    assert_eq!(s.apple_coords, pos(5, 5));
}

#[test]
fn self_collision_on_neck() {
    let coords = vec![pos(20, 20), pos(20, 19), pos(20, 21), pos(21, 21)];
    let mut s = play_state(coords.clone(), pos(5, 5), Direction::Up);
    s.forward(&40, &40);
    assert_eq!(s.game_mode, GameMode::Lost);
    assert_eq!(s.coords, coords);
}

#[test]
fn wrap_left_edge_head() {
    let coords = vec![
        pos(1, 20),
        pos(2, 20),
        pos(30, 30),
        pos(31, 30),
        pos(32, 30),
        pos(33, 30),
    ];
    let mut s = play_state(coords, pos(10, 10), Direction::Left);
    s.forward(&40, &40);
    assert_eq!(s.coords[0], pos(39, 20));
    assert_eq!(s.coords[1], pos(40, 20));
    assert_eq!(s.coords[2], pos(1, 20));
    assert_eq!(s.game_mode, GameMode::Play);
}

#[test]
fn wrap_left_edge_neck() {
    let coords = vec![
        pos(0, 20),
        pos(1, 20),
        pos(30, 30),
        pos(31, 30),
        pos(32, 30),
        pos(33, 30),
    ];
    let mut s = play_state(coords, pos(10, 10), Direction::Left);
    s.forward(&40, &40);
    assert_eq!(s.coords[0], pos(39, 20));
    assert_eq!(s.coords[1], pos(40, 20));
}

#[test]
fn wrap_right_edge() {
    let coords = vec![
        pos(39, 20),
        pos(38, 20),
        pos(30, 30),
        pos(31, 30),
        pos(32, 30),
        pos(33, 30),
    ];
    let mut s = play_state(coords, pos(10, 10), Direction::Right);
    s.forward(&40, &40);
    assert_eq!(s.coords[0], pos(1, 20));
    assert_eq!(s.coords[1], pos(0, 20));
    assert_eq!(s.game_mode, GameMode::Play);
}

#[test]
fn wrap_bottom_edge() {
    let coords = vec![
        pos(20, 1),
        pos(20, 2),
        pos(30, 30),
        pos(31, 30),
        pos(32, 30),
        pos(33, 30),
    ];
    let mut s = play_state(coords, pos(10, 10), Direction::Down);
    s.forward(&40, &40);
    assert_eq!(s.coords[0], pos(20, 39));
    assert_eq!(s.coords[1], pos(20, 40));
    assert_eq!(s.game_mode, GameMode::Play);
}

#[test]
fn wrap_top_edge() {
    let coords = vec![
        pos(20, 39),
        pos(20, 38),
        pos(30, 30),
        pos(31, 30),
        pos(32, 30),
        pos(33, 30),
    ];
    let mut s = play_state(coords, pos(10, 10), Direction::Up);
    s.forward(&40, &40);
    assert_eq!(s.coords[0], pos(20, 1));
    assert_eq!(s.coords[1], pos(20, 0));
    assert_eq!(s.game_mode, GameMode::Play);
}

#[test]
fn around_is_inclusive_of_one_unit_offsets() {
    // The head lands on (20, 22); every apple within one unit on both
    // axes is eaten.
    for (ax, ay) in [
        (20, 22),
        (21, 22),
        (19, 22),
        (20, 23),
        (20, 21),
        (19, 21),
        (21, 23),
    ] {
        let mut s = Snake::new(40, 40);
        s.apple_coords = pos(ax, ay);
        s.forward(&40, &40);
        assert_eq!(s.score, 10, "apple at ({ax}, {ay}) should be eaten");
        assert_eq!(s.coords.len(), 12);
    }
}

#[test]
fn around_excludes_two_unit_offsets() {
    // The head lands on (20, 22); an apple two units away on either axis
    // is not eaten.
    for (ax, ay) in [(22, 22), (18, 22), (20, 24), (20, 20), (22, 24)] {
        let mut s = Snake::new(40, 40);
        s.apple_coords = pos(ax, ay);
        s.forward(&40, &40);
        assert_eq!(s.score, 0, "apple at ({ax}, {ay}) should not be eaten");
        assert_eq!(s.coords.len(), 6);
        assert_eq!(s.apple_coords, pos(ax, ay));
    }
}

#[test]
fn repeated_advance_stays_in_play() {
    let mut s = Snake::new(40, 40);
    s.apple_coords = pos(5, 5);
    for _ in 0..100 {
        s.forward(&40, &40);
        assert_eq!(s.game_mode, GameMode::Play);
        assert_eq!(s.coords.len(), 6);
        assert_eq!(s.score, 0);
    }
}

#[test]
fn turn_reversal_is_ignored() {
    let mut s = Snake::new(40, 40);
    s.score = 5;
    s.try_turn(Direction::Down);
    assert_eq!(s.direction, Direction::Up);
    assert_eq!(s.score, 5);
    s.try_turn(Direction::Up);
    assert_eq!(s.direction, Direction::Up);
    assert_eq!(s.score, 5);
}

#[test]
fn turn_across_axis_costs_one_point() {
    let mut s = Snake::new(40, 40);
    s.score = 5;
    s.try_turn(Direction::Left);
    assert_eq!(s.direction, Direction::Left);
    assert_eq!(s.score, 4);
    s.try_turn(Direction::Down);
    assert_eq!(s.direction, Direction::Down);
    assert_eq!(s.score, 3);
}

#[test]
fn turn_score_floors_at_zero() {
    let mut s = Snake::new(40, 40);
    assert_eq!(s.score, 0);
    s.try_turn(Direction::Right);
    assert_eq!(s.direction, Direction::Right);
    assert_eq!(s.score, 0);
}

#[test]
fn toggle_pause_flips_play_and_pause() {
    let mut s = Snake::new(40, 40);
    s.toggle_pause();
    assert_eq!(s.game_mode, GameMode::Pause);
    s.toggle_pause();
    assert_eq!(s.game_mode, GameMode::Play);
}

#[test]
fn toggle_pause_keeps_lost() {
    let mut s = Snake::new(40, 40);
    s.game_mode = GameMode::Lost;
    s.toggle_pause();
    assert_eq!(s.game_mode, GameMode::Lost);
}
