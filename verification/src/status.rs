//! What the editor's front end writes besides the buffers: the two footers, which
//! depend on the screen and on the active buffer, and the line for each pair.

use vstd::prelude::*;
use vstd::string::*;
use crate::editor::{EditingMode, Screen};
use crate::text::Text;

verus! {

/// The colours that the footers and the list use.
#[derive(Clone, Copy, Debug, PartialEq, Eq, Structural)]
pub enum Color {
    Green,
    LightGreen,
    Yellow,
    Red,
    LightRed,
    White,
    DarkGray,
}

/// A piece of text and the colour to write it in.
#[derive(Clone, Copy, Debug)]
pub struct Label {
    pub text: &'static str,
    pub color: Color,
}

/// The columns that a key takes in the line of its pair, at least.
pub const KEY_COLUMNS: usize = 25;

/// The name of the screen as the left footer gives it.
pub open spec fn screen_name(screen: Screen) -> Text {
    match screen {
        Screen::Main => "Normal Mode"@,
        Screen::Editing => "Editing Mode"@,
        Screen::Exiting => "Exiting"@,
    }
}

/// The colour of the screen's name.
pub open spec fn screen_color(screen: Screen) -> Color {
    match screen {
        Screen::Main => Color::Green,
        Screen::Editing => Color::Yellow,
        Screen::Exiting => Color::LightRed,
    }
}

/// What the left footer says of the active buffer.
pub open spec fn editing_name(editing: Option<EditingMode>) -> Text {
    match editing {
        Some(EditingMode::Key) => "Editing JSON Key"@,
        Some(EditingMode::Value) => "Editing JSON Value"@,
        None => "Not Editing Anything"@,
    }
}

/// The colour of what the left footer says of the active buffer.
pub open spec fn editing_color(editing: Option<EditingMode>) -> Color {
    match editing {
        Some(EditingMode::Key) => Color::Green,
        Some(EditingMode::Value) => Color::LightGreen,
        None => Color::DarkGray,
    }
}

/// The keys that the right footer reminds the user of.
pub open spec fn key_hint_text(screen: Screen) -> Text {
    match screen {
        Screen::Main => "(q) to quit / (e) to make new pair"@,
        Screen::Editing => "(ESC) to cancel / (Tab) to switch boxes/enter to complete"@,
        Screen::Exiting => "(q) to quit / (e) to make new pair"@,
    }
}

/// `text`, and after it as many spaces as it takes to fill `columns` columns; a
/// longer text stays as it is.
pub open spec fn padded(text: Text, columns: int) -> Text {
    text + Seq::new(
        if text.len() < columns {
            (columns - text.len()) as nat
        } else {
            0
        },
        |i: int| ' ',
    )
}

/// The line of a pair in the list: the key, filled up with spaces to
/// [`KEY_COLUMNS`] columns, then a colon between two spaces, then the value.
pub open spec fn pair_line_text(key: Text, value: Text) -> Text {
    padded(key, KEY_COLUMNS as int) + seq![' ', ':', ' '] + value
}

/// The left footer's first part: which screen is shown.
pub fn screen_label(screen: Screen) -> (label: Label)
    ensures
        label.text@ == screen_name(screen),
        label.color == screen_color(screen),
{
    match screen {
        Screen::Main => Label { text: "Normal Mode", color: Color::Green },
        Screen::Editing => Label { text: "Editing Mode", color: Color::Yellow },
        Screen::Exiting => Label { text: "Exiting", color: Color::LightRed },
    }
}

/// The left footer's second part: which buffer is active.
pub fn editing_label(editing: Option<EditingMode>) -> (label: Label)
    ensures
        label.text@ == editing_name(editing),
        label.color == editing_color(editing),
{
    match editing {
        Some(EditingMode::Key) => Label { text: "Editing JSON Key", color: Color::Green },
        Some(EditingMode::Value) => Label { text: "Editing JSON Value", color: Color::LightGreen },
        None => Label { text: "Not Editing Anything", color: Color::DarkGray },
    }
}

/// The right footer: the keys that do something on the screen.
pub fn key_hint(screen: Screen) -> (label: Label)
    ensures
        label.text@ == key_hint_text(screen),
        label.color == Color::Red,
{
    match screen {
        Screen::Main => Label { text: "(q) to quit / (e) to make new pair", color: Color::Red },
        Screen::Editing => Label {
            text: "(ESC) to cancel / (Tab) to switch boxes/enter to complete",
            color: Color::Red,
        },
        Screen::Exiting => Label { text: "(q) to quit / (e) to make new pair", color: Color::Red },
    }
}

/// The line of a pair in the list.
pub fn pair_line(key: &str, value: &str) -> (line: String)
    ensures
        line@ == pair_line_text(key@, value@),
{
    let mut line = String::from_str(key);
    let mut columns: usize = key.unicode_len();
    while columns < KEY_COLUMNS
        invariant
            key@.len() <= columns,
            key@.len() < KEY_COLUMNS ==> columns <= KEY_COLUMNS,
            key@.len() >= KEY_COLUMNS ==> columns == key@.len(),
            line@ == padded(key@, columns as int),
        decreases KEY_COLUMNS - columns,
    {
        line.push(' ');
        columns += 1;
    }
    assert(padded(key@, columns as int) =~= padded(key@, KEY_COLUMNS as int));
    proof {
        reveal_strlit(" : ");
    }
    line.append(" : ");
    assert(" : "@ == seq![' ', ':', ' ']);
    line.append(value);
    line
}

} // verus!
