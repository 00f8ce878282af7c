use snake_game::{ConfigError, Coord, Game, DEFAULT_POLLING_MILLIS, MIN_SIDE};

fn on_border(cell: Coord, height: i16, width: i16) -> bool {
    cell.x == 0 || cell.x == width - 1 || cell.y == 0 || cell.y == height - 1
}

#[test]
fn game_new_keeps_every_part() {
    let wall = vec![Coord::new(1, 2)];
    let game = Game::new(7, 9, wall.clone(), 4, 250);
    assert_eq!(game.height, 7);
    assert_eq!(game.width, 9);
    assert_eq!(game.wall, wall);
    assert_eq!(game.score, 4);
    assert_eq!(game.polling_millis, 250);
}

#[test]
fn default_board_is_fifteen_by_forty() {
    let game = Game::default();
    assert_eq!(game.height, 15);
    assert_eq!(game.width, 40);
    assert_eq!(game.score, 0);
    assert_eq!(game.polling_millis, 100);
    assert_eq!(DEFAULT_POLLING_MILLIS, 100);
    assert_eq!(game.wall.len(), 2 * 40 + 2 * 15 - 4);
}

#[test]
fn walls_of_a_five_by_five_grid() {
    let wall = Game::compute_walls(5, 5);
    let mut expected = Vec::new();
    for y in 0..5i16 {
        for x in 0..5i16 {
            if on_border(Coord::new(x, y), 5, 5) {
                expected.push(Coord::new(x, y));
            }
        }
    }
    assert_eq!(wall.len(), 16);
    assert_eq!(wall, expected);
}

#[test]
fn walls_come_row_by_row() {
    let wall = Game::compute_walls(3, 4);
    assert_eq!(
        wall,
        vec![
            Coord::new(0, 0),
            Coord::new(1, 0),
            Coord::new(2, 0),
            Coord::new(3, 0),
            Coord::new(0, 1),
            Coord::new(3, 1),
            Coord::new(0, 2),
            Coord::new(1, 2),
            Coord::new(2, 2),
            Coord::new(3, 2),
        ]
    );
}

#[test]
fn walls_hold_every_border_cell_once() {
    let (height, width) = (15i16, 40i16);
    let wall = Game::compute_walls(height as u16, width as u16);
    for y in 0..height {
        for x in 0..width {
            let cell = Coord::new(x, y);
            let count = wall.iter().filter(|c| **c == cell).count();
            assert_eq!(count, if on_border(cell, height, width) { 1 } else { 0 });
        }
    }
    for cell in &wall {
        assert!(0 <= cell.x && cell.x < width && 0 <= cell.y && cell.y < height);
    }
}

#[test]
fn walls_of_degenerate_grids() {
    assert!(Game::compute_walls(0, 0).is_empty());
    assert!(Game::compute_walls(0, 7).is_empty());
    assert!(Game::compute_walls(7, 0).is_empty());
    assert_eq!(Game::compute_walls(1, 1), vec![Coord::new(0, 0)]);
    assert_eq!(
        Game::compute_walls(2, 2),
        vec![Coord::new(0, 0), Coord::new(1, 0), Coord::new(0, 1), Coord::new(1, 1)]
    );
    assert_eq!(Game::compute_walls(1, 3).len(), 3);
}

#[test]
fn is_wall_agrees_with_the_border() {
    let game = Game::default();
    for y in -1..=15i16 {
        for x in -1..=40i16 {
            let cell = Coord::new(x, y);
            let inside = 0 <= x && x < 40 && 0 <= y && y < 15;
            assert_eq!(game.is_wall(cell), inside && on_border(cell, 15, 40));
        }
    }
}

#[test]
fn is_wall_looks_only_at_the_wall_it_has() {
    let game = Game::new(15, 40, vec![Coord::new(3, 3)], 0, 100);
    assert!(game.is_wall(Coord::new(3, 3)));
    assert!(!game.is_wall(Coord::new(0, 0)));
}

#[test]
fn smallest_board_is_accepted() {
    assert_eq!(MIN_SIDE, 5);
    let game = Game::with_size(5, 5, 100).unwrap();
    assert_eq!(game.height, 5);
    assert_eq!(game.width, 5);
    assert_eq!(game.score, 0);
    assert_eq!(game.polling_millis, 100);
    assert_eq!(game.wall, Game::compute_walls(5, 5));
}

#[test]
fn too_small_boards_are_refused() {
    assert_eq!(Game::with_size(4, 40, 100).unwrap_err(), ConfigError::TooSmall);
    assert_eq!(Game::with_size(15, 4, 100).unwrap_err(), ConfigError::TooSmall);
    assert_eq!(Game::with_size(0, 0, 100).unwrap_err(), ConfigError::TooSmall);
    assert_eq!(Game::with_size(4, 40000, 100).unwrap_err(), ConfigError::TooSmall);
}

#[test]
fn too_large_boards_are_refused() {
    assert_eq!(Game::with_size(32768, 40, 100).unwrap_err(), ConfigError::TooLarge);
    assert_eq!(Game::with_size(15, 65535, 100).unwrap_err(), ConfigError::TooLarge);
}

#[test]
fn with_size_matches_the_default_board() {
    let made = Game::with_size(15, 40, 100).unwrap();
    let standard = Game::default();
    assert_eq!(made.wall, standard.wall);
    assert_eq!(made.height, standard.height);
    assert_eq!(made.width, standard.width);
}

#[test]
fn increase_score_adds_one() {
    let mut game = Game::default();
    game.increase_score();
    assert_eq!(game.score, 1);
    game.increase_score();
    game.increase_score();
    assert_eq!(game.score, 3);
    assert_eq!(game.height, 15);
    assert_eq!(game.width, 40);
    assert_eq!(game.wall.len(), 106);
}
