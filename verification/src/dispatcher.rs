//! The entry point for events from the outside: key presses and the ticks
//! that pace the display.

use vstd::prelude::*;
use crate::app_state::{AppState, AppView};
use crate::mode::{Action, EditingMode, Key};

verus! {

/// One event from the input source.
#[derive(Clone, Copy, PartialEq, Eq, Structural, Debug)]
pub enum InputEvent {
    /// A key was pressed.
    Input(Key),
    /// The tick interval elapsed. Only the display cares.
    Tick,
}

/// Whether `key` in mode `mode` asks the host to end the session: `q` in
/// normal mode. The editor itself does nothing on that key.
pub open spec fn is_quit_request(mode: EditingMode, key: Key) -> bool {
    mode == EditingMode::Normal && key == Key::Char('q')
}

/// Owns the editor and feeds it one event at a time.
#[derive(Debug)]
pub struct InputDispatcher {
    controller: AppState,
}

impl View for InputDispatcher {
    type V = AppView;

    closed spec fn view(&self) -> AppView {
        self.controller@
    }
}

impl InputDispatcher {
    /// A dispatcher that drives `controller`.
    pub fn new(controller: AppState) -> (dispatcher: Self)
        ensures
            dispatcher@ == controller@,
    {
        InputDispatcher { controller }
    }

    /// The editor, for reading: mode, input text, cursor, history, selection.
    pub fn controller(&self) -> (controller: &AppState)
        ensures
            controller@ == self@,
    {
        &self.controller
    }

    /// Gives the editor back.
    pub fn into_controller(self) -> (controller: AppState)
        ensures
            controller@ == self@,
    {
        self.controller
    }

    /// Whether `event` asks the host to end the session. The editor's state
    /// plays no part beyond its mode, and does not change.
    pub fn wants_quit(&self, event: InputEvent) -> (quit: bool)
        ensures
            quit == match event {
                InputEvent::Input(key) => is_quit_request(self@.mode, key),
                InputEvent::Tick => false,
            },
    {
        match event {
            InputEvent::Input(key) => match (self.controller.editing_mode(), key) {
                (EditingMode::Normal, Key::Char(c)) => c == 'q',
                _ => false,
            },
            InputEvent::Tick => false,
        }
    }

    /// Handles one event to the end: a key goes through the bindings of the
    /// current mode, a tick changes nothing.
    pub fn dispatch(&mut self, event: InputEvent) -> (action: Action)
        ensures
            match event {
                InputEvent::Input(key) => final(self)@ == old(self)@.step(key)
                    && action.submitted() == old(self)@.submission(key),
                InputEvent::Tick => final(self)@ == old(self)@ && action.submitted().is_none(),
            },
    {
        match event {
            InputEvent::Input(key) => self.controller.handle_key(key),
            InputEvent::Tick => Action::Nothing,
        }
    }

    /// Appends `message` to the history, as the host does with a submitted
    /// text and with the reply to it.
    pub fn append_history(&mut self, message: String)
        ensures
            final(self)@ == old(self)@.with_history(old(self)@.history.append(message@)),
    {
        self.controller.append_history(message);
    }
}

} // verus!
