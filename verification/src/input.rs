//! Key presses as the state machines see them.

use vstd::prelude::*;

verus! {

/// The symbol of a key: a character, one of the named keys that the programs
/// bind, or anything else.
#[derive(Clone, Copy, Debug, PartialEq, Eq, Structural)]
pub enum Key {
    Char(char),
    Backspace,
    Tab,
    Enter,
    Esc,
    Left,
    Right,
    Other,
}

/// Whether a key went down, is held down, or came up.
#[derive(Clone, Copy, Debug, PartialEq, Eq, Structural)]
pub enum KeyKind {
    Press,
    Repeat,
    Release,
}

/// One key event: the key and what happened to it.
#[derive(Clone, Copy, Debug, PartialEq, Eq, Structural)]
pub struct KeyEvent {
    pub code: Key,
    pub kind: KeyKind,
}

/// What a front end reads from the terminal: a key event, or something that the
/// programs have no use for (a resize, the mouse, pasted text).
#[derive(Clone, Copy, Debug, PartialEq, Eq, Structural)]
pub enum Event {
    Key(KeyEvent),
    Other,
}

impl Event {
    /// The key that the event asks the programs to act on, if any: only a key
    /// that went down counts.
    pub open spec fn pressed_key(self) -> Option<Key> {
        match self {
            Event::Key(key_event) => if key_event.is_press() {
                Some(key_event.code)
            } else {
                None
            },
            Event::Other => None,
        }
    }
}

impl KeyEvent {
    /// The event of `code` going down.
    pub open spec fn pressed(code: Key) -> KeyEvent {
        KeyEvent { code, kind: KeyKind::Press }
    }

    /// The event of `code` going down.
    pub fn press(code: Key) -> (event: KeyEvent)
        ensures
            event == KeyEvent::pressed(code),
    {
        KeyEvent { code, kind: KeyKind::Press }
    }

    /// Whether the key went down: the only kind of event that the programs act on.
    pub open spec fn is_press(self) -> bool {
        self.kind == KeyKind::Press
    }
}

impl From<Key> for KeyEvent {
    fn from(code: Key) -> (event: KeyEvent) {
        KeyEvent { code, kind: KeyKind::Press }
    }
}

impl vstd::std_specs::convert::FromSpecImpl<Key> for KeyEvent {
    open spec fn obeys_from_spec() -> bool {
        true
    }

    open spec fn from_spec(code: Key) -> KeyEvent {
        KeyEvent::pressed(code)
    }
}

/// A control character: one of U+0000 to U+001F or U+007F to U+009F.
pub open spec fn is_control(c: char) -> bool {
    c as u32 <= 0x1f || (0x7f <= c as u32 <= 0x9f)
}

/// A character that can be typed into a text buffer: any but a control character.
pub open spec fn is_printable(c: char) -> bool {
    !is_control(c)
}

/// Tells whether `c` can be typed into a text buffer.
pub fn printable(c: char) -> (yes: bool)
    ensures
        yes == is_printable(c),
{
    let n: u32 = c as u32;
    !(n <= 0x1f || (0x7f <= n && n <= 0x9f))
}

} // verus!
