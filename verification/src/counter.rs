//! The counter: one number that the arrow keys move, and a flag that ends the
//! program.

use vstd::prelude::*;
use crate::input::{Event, Key, KeyEvent, KeyKind};

verus! {

/// The state of the counter program.
#[derive(Debug)]
pub struct App {
    counter: u8,
    exit: bool,
}

/// What an [`App`] stands for: the number shown and whether the program is to end.
pub struct AppView {
    pub counter: int,
    pub exit: bool,
}

impl View for App {
    type V = AppView;

    closed spec fn view(&self) -> AppView {
        AppView { counter: self.counter as int, exit: self.exit }
    }
}

impl AppView {
    /// The state after a key, whatever happened to it: `q` ends the program, the
    /// left arrow counts down, the right arrow counts up, and no other key does
    /// anything.
    pub open spec fn after_key(self, code: Key) -> AppView {
        match code {
            Key::Char('q') => AppView { exit: true, ..self },
            Key::Left => AppView { counter: self.counter - 1, ..self },
            Key::Right => AppView { counter: self.counter + 1, ..self },
            _ => self,
        }
    }

    /// Whether the counter can take the key: it never leaves the range 0 to 255,
    /// so it takes the left arrow above 0 only, the right arrow below 255 only,
    /// and any other key always.
    pub open spec fn accepts_key(self, code: Key) -> bool {
        match code {
            Key::Left => self.counter > 0,
            Key::Right => self.counter < 255,
            _ => true,
        }
    }

    /// The state after an event.
    pub open spec fn after_event(self, event: Event) -> AppView {
        match event.pressed_key() {
            Some(code) => self.after_key(code),
            None => self,
        }
    }

    /// Whether the counter can take the event: a key that went down if it can
    /// take the key, anything else always.
    pub open spec fn accepts_event(self, event: Event) -> bool {
        match event.pressed_key() {
            Some(code) => self.accepts_key(code),
            None => true,
        }
    }
}

impl App {
    /// The number shown.
    pub fn counter(&self) -> (n: u8)
        ensures
            n == self@.counter,
    {
        self.counter
    }

    /// Whether the program is to end.
    pub fn should_exit(&self) -> (yes: bool)
        ensures
            yes == self@.exit,
    {
        self.exit
    }

    /// Tells whether the counter can take the key, so that
    /// [`App::handle_key_event`] may be called with it.
    pub fn accepts_key(&self, code: Key) -> (yes: bool)
        ensures
            yes == self@.accepts_key(code),
    {
        match code {
            Key::Left => self.counter > 0,
            Key::Right => self.counter < 255,
            _ => true,
        }
    }

    /// Tells whether the counter can take the event, so that
    /// [`App::handle_event`] may be called with it.
    pub fn accepts_event(&self, event: Event) -> (yes: bool)
        ensures
            yes == self@.accepts_event(event),
    {
        match event {
            Event::Key(key_event) => key_event.kind != KeyKind::Press || self.accepts_key(
                key_event.code,
            ),
            Event::Other => true,
        }
    }

    /// Asks the program to end.
    pub fn exit(&mut self)
        ensures
            final(self)@ == (AppView { exit: true, ..old(self)@ }),
    {
        self.exit = true;
    }

    /// Counts up by one.
    pub fn increment_counter(&mut self)
        requires
            old(self)@.counter < 255,
        ensures
            final(self)@ == (AppView { counter: old(self)@.counter + 1, ..old(self)@ }),
    {
        self.counter += 1;
    }

    /// Counts down by one.
    pub fn decrement_counter(&mut self)
        requires
            old(self)@.counter > 0,
        ensures
            final(self)@ == (AppView { counter: old(self)@.counter - 1, ..old(self)@ }),
    {
        self.counter -= 1;
    }

    /// Acts on a key, whatever happened to it.
    pub fn handle_key_event(&mut self, key_event: KeyEvent)
        requires
            old(self)@.accepts_key(key_event.code),
        ensures
            final(self)@ == old(self)@.after_key(key_event.code),
    {
        match key_event.code {
            Key::Char('q') => self.exit(),
            Key::Left => self.decrement_counter(),
            Key::Right => self.increment_counter(),
            _ => {},
        }
    }

    /// Acts on what the terminal delivered: on a key that went down as
    /// [`App::handle_key_event`] does, on nothing else.
    pub fn handle_event(&mut self, event: Event)
        requires
            old(self)@.accepts_event(event),
        ensures
            final(self)@ == old(self)@.after_event(event),
    {
        match event {
            Event::Key(key_event) => {
                if key_event.kind == KeyKind::Press {
                    self.handle_key_event(key_event)
                }
            },
            Event::Other => {},
        }
    }
}

impl Default for App {
    /// A counter at zero that has not been asked to end.
    fn default() -> (app: App)
        ensures
            app@ == (AppView { counter: 0, exit: false }),
    {
        App { counter: 0, exit: false }
    }
}

} // verus!
