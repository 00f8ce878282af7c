//! Decoded terminal input and the steering requests it stands for.

use crate::geometry::Direction;
use vstd::prelude::*;

verus! {

/// Which key a key event is about.
#[derive(Clone, Copy, Debug, PartialEq, Eq, Structural)]
pub enum Key {
    /// A character key.
    Char(char),
    /// The escape key.
    Esc,
    /// Any other key.
    Other,
}

/// What happened to the key.
#[derive(Clone, Copy, Debug, PartialEq, Eq, Structural)]
pub enum KeyKind {
    Press,
    Repeat,
    Release,
}

/// One key event as the terminal reported it.
#[derive(Clone, Copy, Debug, PartialEq, Eq, Structural)]
pub struct KeyStroke {
    /// The key.
    pub key: Key,
    /// Bit set of the modifier keys held down; zero for none.
    pub modifiers: u8,
    /// Press, repeat or release.
    pub kind: KeyKind,
    /// Bit set of keyboard state flags; zero for none.
    pub state: u8,
}

/// One terminal event.
#[derive(Clone, Copy, Debug, PartialEq, Eq, Structural)]
pub enum Input {
    /// A key event.
    Key(KeyStroke),
    /// Anything else: focus, mouse, paste, resize.
    Other,
}

/// Key that turns the snake up.
pub const KEY_UP: char = 'w';

/// Key that turns the snake right.
pub const KEY_RIGHT: char = 'd';

/// Key that turns the snake down.
pub const KEY_DOWN: char = 's';

/// Key that turns the snake left.
pub const KEY_LEFT: char = 'a';

impl KeyStroke {
    /// A bare press of `key`: no modifier held, no state flag set.
    ///
    /// The fields are compared as they are. Terminals differ in how they report
    /// shifted letters, as an upper-case character, as a shift modifier or both;
    /// none of those is a bare press of a lower-case letter or of escape, which
    /// are the only keys the game listens for.
    pub open spec fn is_plain_press_of(self, key: Key) -> bool {
        self.key == key && self.modifiers == 0 && self.kind == KeyKind::Press && self.state == 0
    }

    /// A bare press of `key`, as an event.
    pub fn plain(key: Key) -> (stroke: KeyStroke)
        ensures
            stroke == (KeyStroke { key, modifiers: 0, kind: KeyKind::Press, state: 0 }),
            stroke.is_plain_press_of(key),
    {
        KeyStroke { key, modifiers: 0, kind: KeyKind::Press, state: 0 }
    }

    /// Executable form of [`KeyStroke::is_plain_press_of`].
    pub fn is_plain(&self, key: Key) -> (plain: bool)
        ensures
            plain == self.is_plain_press_of(key),
    {
        self.key == key && self.modifiers == 0 && self.kind == KeyKind::Press && self.state == 0
    }
}

impl Input {
    /// The steering request an event stands for: bare presses of `w`, `d`, `s`, `a`
    /// ask for up, right, down, left; a bare press of escape asks to quit; every
    /// other event asks for nothing.
    pub open spec fn request_of(self) -> Option<Direction> {
        match self {
            Input::Key(stroke) => if stroke.is_plain_press_of(Key::Char(KEY_UP)) {
                Some(Direction::Up)
            } else if stroke.is_plain_press_of(Key::Char(KEY_RIGHT)) {
                Some(Direction::Right)
            } else if stroke.is_plain_press_of(Key::Char(KEY_DOWN)) {
                Some(Direction::Down)
            } else if stroke.is_plain_press_of(Key::Char(KEY_LEFT)) {
                Some(Direction::Left)
            } else if stroke.is_plain_press_of(Key::Esc) {
                Some(Direction::Exit)
            } else {
                None
            },
            Input::Other => None,
        }
    }

    /// Decodes an event into the steering request it stands for.
    pub fn request(&self) -> (asked: Option<Direction>)
        ensures
            asked == self.request_of(),
    {
        match self {
            Input::Key(stroke) => {
                if stroke.is_plain(Key::Char(KEY_UP)) {
                    Some(Direction::Up)
                } else if stroke.is_plain(Key::Char(KEY_RIGHT)) {
                    Some(Direction::Right)
                } else if stroke.is_plain(Key::Char(KEY_DOWN)) {
                    Some(Direction::Down)
                } else if stroke.is_plain(Key::Char(KEY_LEFT)) {
                    Some(Direction::Left)
                } else if stroke.is_plain(Key::Esc) {
                    Some(Direction::Exit)
                } else {
                    None
                }
            },
            Input::Other => None,
        }
    }
}

/// The request of the event a tick sampled, if it sampled one.
pub open spec fn sampled_request(input: Option<Input>) -> Option<Direction> {
    match input {
        Some(event) => event.request_of(),
        None => None,
    }
}

} // verus!
