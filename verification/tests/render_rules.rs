use snake_game::{control_hint, Coord, Direction, Game, Paint, ScoreLine, Snake, Stroke, CONTROL_HINT_WIDTH};

fn snake_of(points: &[(i16, i16)], wake: (i16, i16)) -> Snake {
    let body: Vec<Coord> = points.iter().map(|p| Coord::new(p.0, p.1)).collect();
    let head = body[0];
    let tail = body[body.len() - 1];
    let length = body.len();
    Snake::new(head, body, tail, Coord::new(wake.0, wake.1), length, Direction::Right)
}

fn stroke(x: i16, y: i16, paint: Paint) -> Stroke {
    Stroke { at: Coord::new(x, y), paint }
}

#[test]
fn draw_plan_of_the_starting_snake() {
    let plan = Snake::spawn(&Game::default()).draw();
    assert_eq!(
        plan,
        vec![
            stroke(13, 7, Paint::Green),
            stroke(12, 7, Paint::Cyan),
            stroke(11, 7, Paint::Green),
            stroke(10, 7, Paint::Blank),
        ]
    );
}

#[test]
fn draw_plan_alternates_colours() {
    let snake = snake_of(&[(9, 3), (8, 3), (7, 3), (6, 3), (5, 3), (4, 3)], (3, 3));
    assert_eq!(
        snake.draw(),
        vec![
            stroke(9, 3, Paint::Green),
            stroke(8, 3, Paint::Cyan),
            stroke(7, 3, Paint::Green),
            stroke(6, 3, Paint::Cyan),
            stroke(5, 3, Paint::Green),
            stroke(4, 3, Paint::Cyan),
            stroke(3, 3, Paint::Blank),
        ]
    );
}

#[test]
fn draw_plan_blanks_the_wake_last() {
    let mut snake = Snake::spawn(&Game::default());
    snake.grow();
    snake.slither();
    let plan = snake.draw();
    assert_eq!(plan.len(), snake.length + 1);
    assert_eq!(plan[3], stroke(11, 7, Paint::Cyan));
    assert_eq!(plan[4], stroke(11, 7, Paint::Blank));
}

#[test]
fn control_hint_text() {
    assert_eq!(control_hint(), "WASD to move, ESC to exit");
    assert_eq!(control_hint().len(), CONTROL_HINT_WIDTH as usize);
    assert_eq!(CONTROL_HINT_WIDTH, 25);
}

#[test]
fn score_line_of_the_default_board() {
    let line = Game::default().score_line();
    assert_eq!(line, Some(ScoreLine { row: 15, score_column: 0, hint_column: 15 }));
}

#[test]
fn score_line_needs_room_for_the_hint() {
    assert_eq!(Game::with_size(5, 24, 100).unwrap().score_line(), None);
    assert_eq!(
        Game::with_size(5, 25, 100).unwrap().score_line(),
        Some(ScoreLine { row: 5, score_column: 0, hint_column: 0 })
    );
}
