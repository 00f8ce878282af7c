use snake_game::{Coord, Direction, Game, Input, Key, KeyKind, KeyStroke, Snake};

fn press(key: Key) -> Input {
    Input::Key(KeyStroke::plain(key))
}

fn spawned() -> (Game, Snake) {
    let game = Game::default();
    let snake = Snake::spawn(&game);
    (game, snake)
}

#[test]
fn plain_stroke_has_no_modifiers() {
    let stroke = KeyStroke::plain(Key::Char('w'));
    assert_eq!(stroke.key, Key::Char('w'));
    assert_eq!(stroke.modifiers, 0);
    assert_eq!(stroke.kind, KeyKind::Press);
    assert_eq!(stroke.state, 0);
    assert!(stroke.is_plain(Key::Char('w')));
    assert!(!stroke.is_plain(Key::Char('a')));
    assert!(!stroke.is_plain(Key::Esc));
}

#[test]
fn recognised_keys() {
    assert_eq!(press(Key::Char('w')).request(), Some(Direction::Up));
    assert_eq!(press(Key::Char('d')).request(), Some(Direction::Right));
    assert_eq!(press(Key::Char('s')).request(), Some(Direction::Down));
    assert_eq!(press(Key::Char('a')).request(), Some(Direction::Left));
    assert_eq!(press(Key::Esc).request(), Some(Direction::Exit));
}

#[test]
fn unrecognised_events_ask_for_nothing() {
    assert_eq!(press(Key::Char('x')).request(), None);
    assert_eq!(press(Key::Char('W')).request(), None);
    assert_eq!(press(Key::Char(' ')).request(), None);
    assert_eq!(press(Key::Other).request(), None);
    assert_eq!(Input::Other.request(), None);
}

#[test]
fn modified_or_released_keys_ask_for_nothing() {
    let shifted = KeyStroke { key: Key::Char('w'), modifiers: 1, kind: KeyKind::Press, state: 0 };
    let control = KeyStroke { key: Key::Char('a'), modifiers: 2, kind: KeyKind::Press, state: 0 };
    let released = KeyStroke { key: Key::Char('w'), modifiers: 0, kind: KeyKind::Release, state: 0 };
    let repeated = KeyStroke { key: Key::Esc, modifiers: 0, kind: KeyKind::Repeat, state: 0 };
    let caps_lock = KeyStroke { key: Key::Char('d'), modifiers: 0, kind: KeyKind::Press, state: 2 };
    for stroke in [shifted, control, released, repeated, caps_lock] {
        assert!(!stroke.is_plain(stroke.key));
        assert_eq!(Input::Key(stroke).request(), None);
    }
}

#[test]
fn handle_input_turns_the_snake() {
    let (game, mut snake) = spawned();
    game.handle_input(&mut snake, Some(press(Key::Char('w'))));
    assert_eq!(snake.direction, Direction::Up);
    game.handle_input(&mut snake, Some(press(Key::Char('a'))));
    assert_eq!(snake.direction, Direction::Left);
    game.handle_input(&mut snake, Some(press(Key::Char('s'))));
    assert_eq!(snake.direction, Direction::Down);
    game.handle_input(&mut snake, Some(press(Key::Char('d'))));
    assert_eq!(snake.direction, Direction::Right);
    assert_eq!(snake.head, Coord::new(13, 7));
    assert_eq!(snake.length, 3);
}

#[test]
fn handle_input_rejects_each_reversal() {
    for (current, key) in [
        (Direction::Up, 's'),
        (Direction::Right, 'a'),
        (Direction::Down, 'w'),
        (Direction::Left, 'd'),
    ] {
        let (game, mut snake) = spawned();
        snake.direction = current;
        game.handle_input(&mut snake, Some(press(Key::Char(key))));
        assert_eq!(snake.direction, current);
    }
}

#[test]
fn handle_input_without_event_changes_nothing() {
    let (game, mut snake) = spawned();
    game.handle_input(&mut snake, None);
    assert_eq!(snake.direction, Direction::Right);
    game.handle_input(&mut snake, Some(Input::Other));
    assert_eq!(snake.direction, Direction::Right);
    game.handle_input(&mut snake, Some(press(Key::Char('q'))));
    assert_eq!(snake.direction, Direction::Right);
}

#[test]
fn handle_input_repeating_the_heading_keeps_it() {
    let (game, mut snake) = spawned();
    game.handle_input(&mut snake, Some(press(Key::Char('d'))));
    assert_eq!(snake.direction, Direction::Right);
}

#[test]
fn handle_input_escape_sets_the_exit_value() {
    let (game, mut snake) = spawned();
    game.handle_input(&mut snake, Some(press(Key::Esc)));
    assert_eq!(snake.direction, Direction::Exit);
}

#[test]
fn up_then_down_in_one_tick_stays_up() {
    let (game, mut snake) = spawned();
    game.handle_input(&mut snake, Some(press(Key::Char('w'))));
    assert_eq!(snake.direction, Direction::Up);
    game.handle_input(&mut snake, Some(press(Key::Char('s'))));
    assert_eq!(snake.direction, Direction::Up);
}
