//! The key bindings of the editor: what each key does on each screen.
//!
//! | Screen  | Key                 | Effect                                        |
//! |---------|---------------------|-----------------------------------------------|
//! | Main    | `q`                 | ask whether to leave, output to be written    |
//! | Main    | `e`                 | start typing a new pair                       |
//! | Editing | printable character | goes to the end of the active buffer          |
//! | Editing | Backspace           | removes the last character of that buffer     |
//! | Editing | Tab                 | makes the other buffer active                 |
//! | Editing | Enter               | key buffer: on to the value; value: commit    |
//! | Editing | Esc                 | gives the pair up                             |
//! | Exiting | `y`                 | the program ends and writes the pairs out     |
//! | Exiting | any other key       | back to the main screen                       |
//!
//! A key that has no row does nothing. Only keys that went down count.

use vstd::prelude::*;
use crate::editor::{EditingMode, Editor, EditorState, Screen};
use crate::input::{is_printable, printable, Event, Key, KeyEvent, KeyKind};
use crate::pairs::{has_key, lemma_put_as_map, lemma_put_present, lookup};

verus! {

/// What the event loop is to do after a key.
#[derive(Clone, Copy, Debug, PartialEq, Eq, Structural)]
pub enum Signal {
    /// Go on reading keys.
    Continue,
    /// End the program, and write the pairs out or not.
    Stop { persist: bool },
}

/// Whether the key is bound on the screen.
pub open spec fn is_bound(screen: Screen, key: Key) -> bool {
    match screen {
        Screen::Main => key == Key::Char('q') || key == Key::Char('e'),
        Screen::Editing => match key {
            Key::Char(c) => is_printable(c),
            Key::Backspace | Key::Tab | Key::Enter | Key::Esc => true,
            _ => false,
        },
        Screen::Exiting => true,
    }
}

impl EditorState {
    /// The state after a key went down.
    pub open spec fn after_key(self, key: Key) -> EditorState {
        match self.screen {
            Screen::Main => match key {
                Key::Char('q') => self.request_exit(true),
                Key::Char('e') => self.enter_edit_mode(),
                _ => self,
            },
            Screen::Editing => match key {
                Key::Char(c) => if is_printable(c) {
                    self.append_char_to_active_buffer(c)
                } else {
                    self
                },
                Key::Backspace => self.pop_char_from_active_buffer(),
                Key::Tab => self.switch_edit_target(),
                Key::Enter => if self.editing == Some(EditingMode::Value) {
                    self.commit_pair()
                } else {
                    self.switch_edit_target()
                },
                Key::Esc => self.cancel_edit(),
                _ => self,
            },
            Screen::Exiting => match key {
                Key::Char('y') => self.request_exit(true),
                _ => self.resume_from_exit(),
            },
        }
    }

    /// What the event loop is told after a key went down: to stop and write the
    /// pairs out after `y` on the exiting screen, to go on after anything else.
    pub open spec fn signal_on_key(self, key: Key) -> Signal {
        if self.screen == Screen::Exiting && key == Key::Char('y') {
            Signal::Stop { persist: true }
        } else {
            Signal::Continue
        }
    }

    /// The state after an event.
    pub open spec fn after_event(self, event: Event) -> EditorState {
        match event.pressed_key() {
            Some(key) => self.after_key(key),
            None => self,
        }
    }

    /// What the event loop is told after an event.
    pub open spec fn signal_on_event(self, event: Event) -> Signal {
        match event.pressed_key() {
            Some(key) => self.signal_on_key(key),
            None => Signal::Continue,
        }
    }

    /// The state after a run of events, the first of them first.
    pub open spec fn after_events(self, events: Seq<Event>) -> EditorState
        decreases events.len(),
    {
        if events.len() == 0 {
            self
        } else {
            self.after_events(events.drop_last()).after_event(events.last())
        }
    }
}

impl Editor {
    /// Acts on a key that went down, as the table of bindings says, and tells
    /// the event loop whether to stop. No operation that it calls refuses.
    pub fn handle_key(&mut self, key: Key) -> (signal: Signal)
        requires
            old(self).wf(),
        ensures
            final(self).wf(),
            final(self)@ == old(self)@.after_key(key),
            signal == old(self)@.signal_on_key(key),
    {
        match self.screen() {
            Screen::Main => match key {
                Key::Char('q') => {
                    self.request_exit(true);
                },
                Key::Char('e') => {
                    let done = self.enter_edit_mode();
                    assert(done is Ok);
                },
                _ => {},
            },
            Screen::Editing => match key {
                Key::Char(c) => {
                    if printable(c) {
                        let done = self.append_char_to_active_buffer(c);
                        assert(done is Ok);
                    }
                },
                Key::Backspace => {
                    let done = self.pop_char_from_active_buffer();
                    assert(done is Ok);
                },
                Key::Tab => {
                    let done = self.switch_edit_target();
                    assert(done is Ok);
                },
                Key::Enter => {
                    let done = match self.editing_mode() {
                        Some(EditingMode::Value) => self.commit_pair(),
                        _ => self.switch_edit_target(),
                    };
                    assert(done is Ok);
                },
                Key::Esc => {
                    self.cancel_edit();
                },
                _ => {},
            },
            Screen::Exiting => match key {
                Key::Char('y') => {
                    self.request_exit(true);
                    return Signal::Stop { persist: self.should_persist() };
                },
                _ => {
                    self.resume_from_exit();
                },
            },
        }
        Signal::Continue
    }

    /// Acts on a key event: on a key that went down as [`Editor::handle_key`]
    /// does, on a key that is held or came up not at all.
    pub fn handle_key_event(&mut self, key_event: KeyEvent) -> (signal: Signal)
        requires
            old(self).wf(),
        ensures
            final(self).wf(),
            final(self)@ == old(self)@.after_event(Event::Key(key_event)),
            signal == old(self)@.signal_on_event(Event::Key(key_event)),
    {
        match key_event.kind {
            KeyKind::Press => self.handle_key(key_event.code),
            _ => Signal::Continue,
        }
    }

    /// Acts on what the terminal delivered: on a key event as
    /// [`Editor::handle_key_event`] does, on nothing else.
    pub fn handle_event(&mut self, event: Event) -> (signal: Signal)
        requires
            old(self).wf(),
        ensures
            final(self).wf(),
            final(self)@ == old(self)@.after_event(event),
            signal == old(self)@.signal_on_event(event),
    {
        match event {
            Event::Key(key_event) => self.handle_key_event(key_event),
            Event::Other => Signal::Continue,
        }
    }
}

/// A key leaves a valid state valid: whatever is typed, the screen and the
/// active buffer fit together afterwards, no key occurs twice among the pairs,
/// and the buffers hold text on the editing screen only.
pub proof fn lemma_key_keeps_wf(state: EditorState, key: Key)
    requires
        state.wf(),
    ensures
        state.after_key(key).wf(),
        state.after_key(key).valid_pair(),
{
    lemma_put_as_map(state.pairs, state.pending_key, state.pending_value);
}

/// A run of events leaves a valid state valid.
pub proof fn lemma_events_keep_wf(state: EditorState, events: Seq<Event>)
    requires
        state.wf(),
    ensures
        state.after_events(events).wf(),
        state.after_events(events).valid_pair(),
    decreases events.len(),
{
    if events.len() > 0 {
        let before = state.after_events(events.drop_last());
        lemma_events_keep_wf(state, events.drop_last());
        match events.last().pressed_key() {
            Some(key) => lemma_key_keeps_wf(before, key),
            None => {},
        }
    }
}

/// Whatever events arrive after the start, and at every moment among them, the
/// screen and the active buffer are one of main with no buffer, editing with the
/// key buffer, editing with the value buffer, and exiting with no buffer.
pub proof fn lemma_pair_is_always_valid(events: Seq<Event>, seen: int)
    requires
        0 <= seen <= events.len(),
    ensures
        EditorState::initial().after_events(events.take(seen)).valid_pair(),
        ({
            let now = EditorState::initial().after_events(events.take(seen));
            ||| now.screen == Screen::Main && now.editing == None::<EditingMode>
            ||| now.screen == Screen::Editing && now.editing == Some(EditingMode::Key)
            ||| now.screen == Screen::Editing && now.editing == Some(EditingMode::Value)
            ||| now.screen == Screen::Exiting && now.editing == None::<EditingMode>
        }),
{
    lemma_events_keep_wf(EditorState::initial(), events.take(seen));
}

/// On the main screen, `e` and then Esc lead back to the very same state: the
/// main screen, no active buffer, empty buffers, the pairs untouched.
pub proof fn lemma_edit_then_cancel(state: EditorState)
    requires
        state.wf(),
        state.screen == Screen::Main,
    ensures
        state.after_key(Key::Char('e')).after_key(Key::Esc) == state,
        state.after_key(Key::Char('e')).signal_on_key(Key::Esc) == Signal::Continue,
{
    let back = state.after_key(Key::Char('e')).after_key(Key::Esc);
    assert(back.pending_key =~= state.pending_key);
    assert(back.pending_value =~= state.pending_value);
}

/// Committing under a key that is already there overwrites its value where it
/// stands: the pairs are as many as before, under the same keys in the same
/// order, no key occurs twice, the key leads to the new value, and the pairs
/// under other keys are untouched.
pub proof fn lemma_commit_overwrites(state: EditorState)
    requires
        state.wf(),
        state.screen == Screen::Editing,
        has_key(state.pairs, state.pending_key),
    ensures
        state.commit_pair().pairs.len() == state.pairs.len(),
        state.commit_pair().wf(),
        lookup(state.commit_pair().pairs, state.pending_key) == Some(state.pending_value),
        forall|i: int|
            0 <= i < state.pairs.len() ==> (#[trigger] state.commit_pair().pairs[i]).0
                == state.pairs[i].0,
        forall|i: int|
            0 <= i < state.pairs.len() && state.pairs[i].0 != state.pending_key
                ==> #[trigger] state.commit_pair().pairs[i] == state.pairs[i],
{
    lemma_put_present(state.pairs, state.pending_key, state.pending_value);
}

/// On the exiting screen, `y` stops the program with the pairs to be written
/// out, which the state records too, and any other key leads back to the main
/// screen with no active buffer, the pairs and the answer to whether they are to
/// be written out as they were.
pub proof fn lemma_answer_on_exiting(state: EditorState, key: Key)
    requires
        state.wf(),
        state.screen == Screen::Exiting,
    ensures
        key == Key::Char('y') ==> state.signal_on_key(key) == (Signal::Stop { persist: true })
            && state.after_key(key) == (EditorState { should_persist: true, ..state }),
        key != Key::Char('y') ==> state.signal_on_key(key) == Signal::Continue
            && state.after_key(key) == (EditorState { screen: Screen::Main, ..state }),
{
    let after = state.after_key(key);
    assert(after.pending_key =~= state.pending_key);
    assert(after.pending_value =~= state.pending_value);
}

/// On the main screen, with the pairs to be written out on exit, `q` and then
/// a key other than `y` lead back to the very same state.
pub proof fn lemma_quit_then_decline(state: EditorState, key: Key)
    requires
        state.wf(),
        state.screen == Screen::Main,
        state.should_persist,
        key != Key::Char('y'),
    ensures
        state.after_key(Key::Char('q')).screen == Screen::Exiting,
        state.after_key(Key::Char('q')).after_key(key) == state,
{
    let back = state.after_key(Key::Char('q')).after_key(key);
    assert(back.pending_key =~= state.pending_key);
    assert(back.pending_value =~= state.pending_value);
}

/// Backspace on an empty active buffer changes nothing.
pub proof fn lemma_backspace_on_empty(state: EditorState)
    requires
        state.wf(),
        state.screen == Screen::Editing,
        state.active_text().len() == 0,
    ensures
        state.after_key(Key::Backspace) == state,
        state.signal_on_key(Key::Backspace) == Signal::Continue,
{
}

/// A key that is not bound on the screen changes nothing, however often it is
/// pressed, and neither does an event that is no key going down.
pub proof fn lemma_unbound_key_is_ignored(state: EditorState, key: Key, event: Event)
    ensures
        !is_bound(state.screen, key) ==> state.after_key(key) == state && state.signal_on_key(key)
            == Signal::Continue,
        !is_bound(state.screen, key) ==> state.after_key(key).after_key(key) == state,
        event.pressed_key() is None ==> state.after_event(event) == state && state.signal_on_event(
            event,
        ) == Signal::Continue,
{
}

} // verus!
