//! The state of the key/value editor and the operations that change it.
//!
//! The editor shows one of three screens. On the main screen nothing is being
//! typed. On the editing screen one new pair is typed into two buffers, one of
//! which is active. On the exiting screen the user is asked whether to leave.

use vstd::prelude::*;
use crate::pairs::{distinct_keys, put, Entries, Pairs};
use crate::text::Text;

verus! {

/// The screen that the editor shows.
#[derive(Clone, Copy, Debug, PartialEq, Eq, Structural)]
pub enum Screen {
    Main,
    Editing,
    Exiting,
}

/// The buffer that takes what is typed on the editing screen.
#[derive(Clone, Copy, Debug, PartialEq, Eq, Structural)]
pub enum EditingMode {
    Key,
    Value,
}

/// Why an operation refused to act. Either one means that the caller did not look
/// at the screen before it called.
#[derive(Clone, Copy, Debug, PartialEq, Eq, Structural)]
pub enum EditorError {
    /// The operation does not apply on the screen that is shown.
    InvalidTransition,
    /// No buffer is active, because the editing screen is not shown.
    NoActiveBuffer,
}

/// What an [`Editor`] stands for.
#[verifier::ext_equal]
pub struct EditorState {
    /// The pairs committed so far, in order of insertion.
    pub pairs: Entries,
    pub screen: Screen,
    /// The active buffer; present on the editing screen only.
    pub editing: Option<EditingMode>,
    pub pending_key: Text,
    pub pending_value: Text,
    /// Whether the pairs are to be written out when the program ends.
    pub should_persist: bool,
}

impl EditorState {
    /// Where every editor starts: the main screen, no pairs, empty buffers, and
    /// output that is to be written.
    pub open spec fn initial() -> EditorState {
        EditorState {
            pairs: Seq::empty(),
            screen: Screen::Main,
            editing: None,
            pending_key: Seq::empty(),
            pending_value: Seq::empty(),
            should_persist: true,
        }
    }

    /// The screen and the active buffer fit together: a buffer is active on the
    /// editing screen and on no other.
    pub open spec fn valid_pair(self) -> bool {
        match (self.screen, self.editing) {
            (Screen::Main, None) => true,
            (Screen::Editing, Some(_)) => true,
            (Screen::Exiting, None) => true,
            _ => false,
        }
    }

    /// The invariant of the editor: the screen and the active buffer fit together,
    /// no key occurs twice among the pairs, and the buffers hold text on the
    /// editing screen only.
    pub open spec fn wf(self) -> bool {
        &&& self.valid_pair()
        &&& distinct_keys(self.pairs)
        &&& self.screen != Screen::Editing ==> self.pending_key.len() == 0
            && self.pending_value.len() == 0
    }

    /// The text of the active buffer.
    pub open spec fn active_text(self) -> Text
        recommends
            self.editing is Some,
    {
        match self.editing {
            Some(EditingMode::Value) => self.pending_value,
            _ => self.pending_key,
        }
    }

    /// This state with `text` in the active buffer.
    pub open spec fn with_active_text(self, text: Text) -> EditorState
        recommends
            self.editing is Some,
    {
        match self.editing {
            Some(EditingMode::Value) => EditorState { pending_value: text, ..self },
            _ => EditorState { pending_key: text, ..self },
        }
    }

    /// This state back on the main screen, the buffers discarded.
    pub open spec fn on_main(self) -> EditorState {
        EditorState {
            screen: Screen::Main,
            editing: None,
            pending_key: Seq::empty(),
            pending_value: Seq::empty(),
            ..self
        }
    }

    /// From the main screen: the editing screen with the key buffer active and
    /// both buffers empty.
    pub open spec fn enter_edit_mode(self) -> EditorState
        recommends
            self.screen == Screen::Main,
    {
        EditorState {
            screen: Screen::Editing,
            editing: Some(EditingMode::Key),
            pending_key: Seq::empty(),
            pending_value: Seq::empty(),
            ..self
        }
    }

    /// On the editing screen: `c` at the end of the active buffer.
    pub open spec fn append_char_to_active_buffer(self, c: char) -> EditorState
        recommends
            self.screen == Screen::Editing,
    {
        self.with_active_text(self.active_text().push(c))
    }

    /// On the editing screen: the active buffer without its last character; an
    /// empty buffer stays empty.
    pub open spec fn pop_char_from_active_buffer(self) -> EditorState
        recommends
            self.screen == Screen::Editing,
    {
        if self.active_text().len() == 0 {
            self
        } else {
            self.with_active_text(self.active_text().drop_last())
        }
    }

    /// On the editing screen: the other buffer active.
    pub open spec fn switch_edit_target(self) -> EditorState
        recommends
            self.screen == Screen::Editing,
    {
        EditorState {
            editing: match self.editing {
                Some(EditingMode::Key) => Some(EditingMode::Value),
                _ => Some(EditingMode::Key),
            },
            ..self
        }
    }

    /// On the editing screen: the pending value stored under the pending key, and
    /// back to the main screen with empty buffers.
    pub open spec fn commit_pair(self) -> EditorState
        recommends
            self.screen == Screen::Editing,
    {
        EditorState {
            pairs: put(self.pairs, self.pending_key, self.pending_value),
            ..self.on_main()
        }
    }

    /// Back to the main screen without storing anything.
    pub open spec fn cancel_edit(self) -> EditorState {
        self.on_main()
    }

    /// The exiting screen, with the answer to whether the pairs are to be written
    /// out. An edit that was under way is given up.
    pub open spec fn request_exit(self, persist: bool) -> EditorState {
        EditorState { screen: Screen::Exiting, should_persist: persist, ..self.on_main() }
    }

    /// Back to the main screen; whether the pairs are to be written out stays as
    /// it was.
    pub open spec fn resume_from_exit(self) -> EditorState {
        self.on_main()
    }
}

/// The state of the editor: the pairs, the screen, the active buffer and the two
/// buffers, and whether the pairs are to be written out on exit.
#[derive(Debug)]
pub struct Editor {
    pairs: Pairs,
    screen: Screen,
    editing: Option<EditingMode>,
    pending_key: String,
    pending_value: String,
    should_persist: bool,
}

impl View for Editor {
    type V = EditorState;

    closed spec fn view(&self) -> EditorState {
        EditorState {
            pairs: self.pairs@,
            screen: self.screen,
            editing: self.editing,
            pending_key: self.pending_key@,
            pending_value: self.pending_value@,
            should_persist: self.should_persist,
        }
    }
}

impl Editor {
    /// The invariant that every operation keeps; see [`EditorState::wf`].
    pub open spec fn wf(&self) -> bool {
        self@.wf()
    }

    /// An editor in its initial state.
    pub fn new() -> (editor: Editor)
        ensures
            editor@ == EditorState::initial(),
            editor.wf(),
    {
        Editor {
            pairs: Pairs::new(),
            screen: Screen::Main,
            editing: None,
            pending_key: String::new(),
            pending_value: String::new(),
            should_persist: true,
        }
    }

    /// The pairs committed so far.
    pub fn pairs(&self) -> (pairs: &Pairs)
        ensures
            pairs@ == self@.pairs,
    {
        &self.pairs
    }

    /// The screen that is shown.
    pub fn screen(&self) -> (screen: Screen)
        ensures
            screen == self@.screen,
    {
        self.screen
    }

    /// The active buffer, if the editing screen is shown.
    pub fn editing_mode(&self) -> (editing: Option<EditingMode>)
        ensures
            editing == self@.editing,
    {
        self.editing
    }

    /// The key typed so far.
    pub fn pending_key(&self) -> (text: &str)
        ensures
            text@ == self@.pending_key,
    {
        self.pending_key.as_str()
    }

    /// The value typed so far.
    pub fn pending_value(&self) -> (text: &str)
        ensures
            text@ == self@.pending_value,
    {
        self.pending_value.as_str()
    }

    /// Whether the pairs are to be written out when the program ends.
    pub fn should_persist(&self) -> (persist: bool)
        ensures
            persist == self@.should_persist,
    {
        self.should_persist
    }

    /// Empties both buffers and shows `screen` with no buffer active.
    fn leave_editing(&mut self, screen: Screen)
        requires
            screen != Screen::Editing,
        ensures
            final(self)@ == (EditorState { screen, ..old(self)@.on_main() }),
    {
        self.pending_key.clear();
        self.pending_value.clear();
        self.editing = None;
        self.screen = screen;
    }

    /// Opens the editing screen with the key buffer active and both buffers
    /// empty. Refuses with `InvalidTransition` unless the main screen is shown.
    pub fn enter_edit_mode(&mut self) -> (done: Result<(), EditorError>)
        requires
            old(self).wf(),
        ensures
            final(self).wf(),
            old(self)@.screen == Screen::Main ==> done is Ok && final(self)@
                == old(self)@.enter_edit_mode(),
            old(self)@.screen != Screen::Main ==> done == Err::<(), EditorError>(
                EditorError::InvalidTransition,
            ) && final(self)@ == old(self)@,
    {
        match self.screen {
            Screen::Main => {
                self.pending_key.clear();
                self.pending_value.clear();
                self.editing = Some(EditingMode::Key);
                self.screen = Screen::Editing;
                Ok(())
            },
            _ => Err(EditorError::InvalidTransition),
        }
    }

    /// Appends `c` to the active buffer. Refuses with `NoActiveBuffer` unless the
    /// editing screen is shown.
    pub fn append_char_to_active_buffer(&mut self, c: char) -> (done: Result<(), EditorError>)
        requires
            old(self).wf(),
        ensures
            final(self).wf(),
            old(self)@.screen == Screen::Editing ==> done is Ok && final(self)@
                == old(self)@.append_char_to_active_buffer(c),
            old(self)@.screen != Screen::Editing ==> done == Err::<(), EditorError>(
                EditorError::NoActiveBuffer,
            ) && final(self)@ == old(self)@,
    {
        match self.editing {
            Some(EditingMode::Key) => {
                self.pending_key.push(c);
                Ok(())
            },
            Some(EditingMode::Value) => {
                self.pending_value.push(c);
                Ok(())
            },
            None => Err(EditorError::NoActiveBuffer),
        }
    }

    /// Removes the last character of the active buffer; an empty buffer stays
    /// empty, and that is no error. Refuses with `NoActiveBuffer` unless the
    /// editing screen is shown.
    pub fn pop_char_from_active_buffer(&mut self) -> (done: Result<(), EditorError>)
        requires
            old(self).wf(),
        ensures
            final(self).wf(),
            old(self)@.screen == Screen::Editing ==> done is Ok && final(self)@
                == old(self)@.pop_char_from_active_buffer(),
            old(self)@.screen != Screen::Editing ==> done == Err::<(), EditorError>(
                EditorError::NoActiveBuffer,
            ) && final(self)@ == old(self)@,
    {
        match self.editing {
            Some(EditingMode::Key) => {
                self.pending_key.pop();
                Ok(())
            },
            Some(EditingMode::Value) => {
                self.pending_value.pop();
                Ok(())
            },
            None => Err(EditorError::NoActiveBuffer),
        }
    }

    /// Makes the other buffer the active one. Refuses with `InvalidTransition`
    /// unless the editing screen is shown.
    pub fn switch_edit_target(&mut self) -> (done: Result<(), EditorError>)
        requires
            old(self).wf(),
        ensures
            final(self).wf(),
            old(self)@.screen == Screen::Editing ==> done is Ok && final(self)@
                == old(self)@.switch_edit_target(),
            old(self)@.screen != Screen::Editing ==> done == Err::<(), EditorError>(
                EditorError::InvalidTransition,
            ) && final(self)@ == old(self)@,
    {
        match self.editing {
            Some(EditingMode::Key) => {
                self.editing = Some(EditingMode::Value);
                Ok(())
            },
            Some(EditingMode::Value) => {
                self.editing = Some(EditingMode::Key);
                Ok(())
            },
            None => Err(EditorError::InvalidTransition),
        }
    }

    /// Stores the pending value under the pending key, overwriting the value of a
    /// key that is already there, and returns to the main screen with empty
    /// buffers. Refuses with `InvalidTransition` unless the editing screen is
    /// shown.
    pub fn commit_pair(&mut self) -> (done: Result<(), EditorError>)
        requires
            old(self).wf(),
        ensures
            final(self).wf(),
            old(self)@.screen == Screen::Editing ==> done is Ok && final(self)@
                == old(self)@.commit_pair(),
            old(self)@.screen != Screen::Editing ==> done == Err::<(), EditorError>(
                EditorError::InvalidTransition,
            ) && final(self)@ == old(self)@,
    {
        match self.screen {
            Screen::Editing => {
                let mut key = String::new();
                let mut value = String::new();
                core::mem::swap(&mut key, &mut self.pending_key);
                core::mem::swap(&mut value, &mut self.pending_value);
                self.pairs.insert(key, value);
                self.editing = None;
                self.screen = Screen::Main;
                Ok(())
            },
            _ => Err(EditorError::InvalidTransition),
        }
    }

    /// Gives up the edit that is under way, if any, and shows the main screen.
    pub fn cancel_edit(&mut self)
        requires
            old(self).wf(),
        ensures
            final(self).wf(),
            final(self)@ == old(self)@.cancel_edit(),
    {
        self.leave_editing(Screen::Main);
    }

    /// Shows the exiting screen and records whether the pairs are to be written
    /// out. An edit that is under way is given up.
    pub fn request_exit(&mut self, persist: bool)
        requires
            old(self).wf(),
        ensures
            final(self).wf(),
            final(self)@ == old(self)@.request_exit(persist),
    {
        self.leave_editing(Screen::Exiting);
        self.should_persist = persist;
    }

    /// Returns to the main screen after the user declined to leave. Whether the
    /// pairs are to be written out stays as it was.
    pub fn resume_from_exit(&mut self)
        requires
            old(self).wf(),
        ensures
            final(self).wf(),
            final(self)@ == old(self)@.resume_from_exit(),
    {
        self.leave_editing(Screen::Main);
    }
}

} // verus!
