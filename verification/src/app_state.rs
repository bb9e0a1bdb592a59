//! The editor's state and the state machine that keys drive.
//!
//! [`AppState`] is the mode controller: it owns the mode, the input line,
//! the clipboard and the history. Its methods are the single operations;
//! [`AppState::handle_key`] picks the operation that the current mode binds
//! to a key.
//!
//! | mode   | key                  | effect                                   | next mode |
//! |--------|----------------------|------------------------------------------|-----------|
//! | normal | `i`                  | none                                     | insert    |
//! | normal | `v`                  | none                                     | visual    |
//! | normal | `x`                  | delete the character under the cursor    | normal    |
//! | normal | `h`, `l`             | cursor left, right                       | normal    |
//! | normal | `j`, `k`             | select the next, the previous message    | normal    |
//! | normal | `y`                  | yank the selected message                | normal    |
//! | normal | `p`                  | paste the clipboard at the cursor        | normal    |
//! | normal | escape               | drop the selection                       | normal    |
//! | normal | enter                | submit the input line and clear it       | normal    |
//! | insert | a character          | insert it at the cursor                  | insert    |
//! | insert | backspace            | delete the character before the cursor   | insert    |
//! | insert | delete               | delete the character under the cursor    | insert    |
//! | insert | escape               | none                                     | normal    |
//! | insert | enter                | submit the input line and clear it       | normal    |
//! | visual | escape               | none                                     | normal    |
//!
//! Every other key is ignored in its mode.

use vstd::prelude::*;
use vstd::string::*;
use crate::clipboard::Clipboard;
use crate::history::{HistoryStore, HistoryView};
use crate::mode::{Action, EditingMode, Key};
use crate::text_buffer::{TextBuffer, TextBufferView};

verus! {

/// What the editor holds: the mode, the input line, the clipboard's text and
/// the history.
pub struct AppView {
    pub mode: EditingMode,
    pub input: TextBufferView,
    pub clipboard: Seq<char>,
    pub history: HistoryView,
}

impl AppView {
    /// The cursor is inside the input line and the selection is on an entry.
    pub open spec fn wf(self) -> bool {
        self.input.wf() && self.history.wf()
    }

    /// Normal mode with nothing typed, nothing yanked and no history.
    pub open spec fn empty() -> AppView {
        AppView {
            mode: EditingMode::Normal,
            input: TextBufferView::empty(),
            clipboard: Seq::empty(),
            history: HistoryView::empty(),
        }
    }

    /// The state in which a session opens: as [`AppView::empty`], but with a
    /// short sample exchange in the history.
    pub open spec fn initial() -> AppView {
        AppView {
            history: HistoryView {
                entries: seq![
                    "What is Rust?"@,
                    "A blazingly fast programming language!"@,
                    "Qui consequat deserunt sint. Velit excepteur Lorem ut excepteur ad labore voluptate."@,
                ],
                selected: None,
            },
            ..AppView::empty()
        }
    }

    /// This state in another mode.
    pub open spec fn with_mode(self, mode: EditingMode) -> AppView {
        AppView { mode, ..self }
    }

    /// This state with another input line.
    pub open spec fn with_input(self, input: TextBufferView) -> AppView {
        AppView { input, ..self }
    }

    /// This state with another text in the clipboard.
    pub open spec fn with_clipboard(self, clipboard: Seq<char>) -> AppView {
        AppView { clipboard, ..self }
    }

    /// This state with another history.
    pub open spec fn with_history(self, history: HistoryView) -> AppView {
        AppView { history, ..self }
    }

    /// The clipboard takes the selected entry, or the oldest entry when none
    /// is selected. With an empty history nothing changes.
    pub open spec fn yank_selected(self) -> AppView {
        if self.history.entries.len() == 0 {
            self
        } else {
            let index = match self.history.selected {
                Some(index) => index,
                None => 0,
            };
            self.with_clipboard(self.history.entries[index])
        }
    }

    /// The clipboard's text goes into the input line at the cursor.
    pub open spec fn paste_buffer(self) -> AppView {
        self.with_input(self.input.paste(self.clipboard))
    }

    /// The input line is handed over and cleared, and the editor is in
    /// normal mode.
    pub open spec fn submit(self) -> AppView {
        self.with_input(TextBufferView::empty()).with_mode(EditingMode::Normal)
    }

    /// The state after `key` in normal mode.
    pub open spec fn step_normal(self, key: Key) -> AppView {
        match key {
            Key::Char(c) => {
                if c == 'i' {
                    self.with_mode(EditingMode::Insert)
                } else if c == 'v' {
                    self.with_mode(EditingMode::Visual)
                } else if c == 'x' {
                    self.with_input(self.input.remove_at_cursor())
                } else if c == 'h' {
                    self.with_input(self.input.move_left())
                } else if c == 'l' {
                    self.with_input(self.input.move_right())
                } else if c == 'j' {
                    self.with_history(self.history.select_next())
                } else if c == 'k' {
                    self.with_history(self.history.select_previous())
                } else if c == 'y' {
                    self.yank_selected()
                } else if c == 'p' {
                    self.paste_buffer()
                } else {
                    self
                }
            },
            Key::Esc => self.with_history(self.history.clear_selection()),
            Key::Enter => self.submit(),
            _ => self,
        }
    }

    /// The state after `key` in insert mode.
    pub open spec fn step_insert(self, key: Key) -> AppView {
        match key {
            Key::Char(c) => self.with_input(self.input.insert(c)),
            Key::Backspace => self.with_input(self.input.backspace()),
            Key::Delete => self.with_input(self.input.remove_at_cursor()),
            Key::Esc => self.with_mode(EditingMode::Normal),
            Key::Enter => self.submit(),
            Key::Other => self,
        }
    }

    /// The state after `key` in visual mode: escape leads back to normal
    /// mode, every other key is ignored.
    pub open spec fn step_visual(self, key: Key) -> AppView {
        match key {
            Key::Esc => self.with_mode(EditingMode::Normal),
            _ => self,
        }
    }

    /// The state after `key`, by the bindings of the current mode. A key
    /// that the mode does not bind leaves the state as it is.
    pub open spec fn step(self, key: Key) -> AppView {
        match self.mode {
            EditingMode::Normal => self.step_normal(key),
            EditingMode::Insert => self.step_insert(key),
            EditingMode::Visual => self.step_visual(key),
        }
    }

    /// The text that `key` submits: the input line, when the key is enter
    /// in normal or insert mode; otherwise none.
    pub open spec fn submission(self, key: Key) -> Option<Seq<char>> {
        if key == Key::Enter && self.mode != EditingMode::Visual {
            Some(self.input.content)
        } else {
            None
        }
    }

    /// No key leads out of a well-formed state.
    pub proof fn lemma_step_keeps_wf(self, key: Key)
        requires
            self.wf(),
        ensures
            self.step(key).wf(),
    {
    }

    /// In visual mode every key but escape is ignored.
    pub proof fn lemma_visual_ignores_all_but_escape(self, key: Key)
        requires
            self.mode == EditingMode::Visual,
            key != Key::Esc,
        ensures
            self.step(key) == self,
            self.submission(key) is None,
    {
    }

    /// No key changes the entries of the history: they grow only when the
    /// host appends to them.
    pub proof fn lemma_keys_keep_entries(self, key: Key)
        ensures
            self.step(key).history.entries == self.history.entries,
    {
    }

    /// The clipboard changes on the yank key in normal mode and on no other
    /// key.
    pub proof fn lemma_only_yank_sets_clipboard(self, key: Key)
        requires
            !(self.mode == EditingMode::Normal && key == Key::Char('y')),
        ensures
            self.step(key).clipboard == self.clipboard,
    {
    }

    /// A key that submits hands over the whole input line and leaves the
    /// editor in normal mode with an empty input line; history and clipboard
    /// stay.
    pub proof fn lemma_submission_clears_input(self, key: Key)
        requires
            self.submission(key) is Some,
        ensures
            self.submission(key) == Some(self.input.content),
            self.step(key).mode == EditingMode::Normal,
            self.step(key).input == TextBufferView::empty(),
            self.step(key).history == self.history,
            self.step(key).clipboard == self.clipboard,
    {
    }
}

/// The editor: the active mode, and the input line, clipboard and history
/// that the keys act on.
#[derive(Debug)]
pub struct AppState {
    editing_mode: EditingMode,
    input: TextBuffer,
    clipboard: Clipboard,
    history: HistoryStore,
}

impl View for AppState {
    type V = AppView;

    closed spec fn view(&self) -> AppView {
        AppView {
            mode: self.editing_mode,
            input: self.input@,
            clipboard: self.clipboard@,
            history: self.history@,
        }
    }
}

impl Default for AppState {
    /// Normal mode with nothing typed, nothing yanked and no history.
    fn default() -> (state: Self)
        ensures
            state@ == AppView::empty(),
    {
        AppState {
            editing_mode: EditingMode::Normal,
            input: TextBuffer::new(),
            clipboard: Clipboard::new(),
            history: HistoryStore::new(),
        }
    }
}

impl AppState {
    /// The state in which a session opens.
    pub fn new() -> (state: Self)
        ensures
            state@ == AppView::initial(),
    {
        let mut history = HistoryStore::new();
        history.append(String::from_str("What is Rust?"));
        history.append(String::from_str("A blazingly fast programming language!"));
        history.append(
            String::from_str(
                "Qui consequat deserunt sint. Velit excepteur Lorem ut excepteur ad labore voluptate.",
            ),
        );
        assert(history@.entries =~= AppView::initial().history.entries);
        AppState {
            editing_mode: EditingMode::Normal,
            input: TextBuffer::new(),
            clipboard: Clipboard::new(),
            history,
        }
    }

    /// The active mode.
    pub fn editing_mode(&self) -> (mode: EditingMode)
        ensures
            mode == self@.mode,
    {
        self.editing_mode
    }

    /// Makes `editing_mode` the active mode.
    pub fn switch_editing_mode(&mut self, editing_mode: EditingMode)
        ensures
            final(self)@ == old(self)@.with_mode(editing_mode),
    {
        self.editing_mode = editing_mode;
    }

    /// The text of the input line.
    pub fn input_text(&self) -> (text: &str)
        ensures
            text@ == self@.input.content,
    {
        self.input.content()
    }

    /// Inserts `c` at the cursor; the cursor moves behind it.
    pub fn insert_char(&mut self, c: char)
        ensures
            final(self)@ == old(self)@.with_input(old(self)@.input.insert(c)),
            final(self)@.input.cursor == old(self)@.input.cursor + 1,
            final(self)@.input.content.len() == old(self)@.input.content.len() + 1,
    {
        self.input.insert(c);
    }

    /// Deletes the character under the cursor, if there is one.
    pub fn remove_char(&mut self)
        ensures
            final(self)@ == old(self)@.with_input(old(self)@.input.remove_at_cursor()),
    {
        self.input.remove_at_cursor();
    }

    /// Deletes the character before the cursor, if there is one, and moves
    /// the cursor onto its place.
    pub fn backspace(&mut self)
        ensures
            final(self)@ == old(self)@.with_input(old(self)@.input.backspace()),
    {
        self.input.backspace();
    }

    /// Replaces the input line by `text` and keeps the cursor in range.
    pub fn set_input_text(&mut self, text: &str)
        ensures
            final(self)@ == old(self)@.with_input(old(self)@.input.set(text@)),
    {
        self.input.set(text);
    }

    /// Empties the input line and puts the cursor at the start.
    pub fn clear_input_text(&mut self)
        ensures
            final(self)@ == old(self)@.with_input(TextBufferView::empty()),
    {
        self.input.clear();
    }

    /// The cursor's offset in the input line, counted in characters. It
    /// never exceeds the number of characters.
    pub fn cursor_position(&self) -> (cursor: usize)
        ensures
            cursor == self@.input.cursor,
            cursor <= self@.input.content.len(),
    {
        self.input.cursor()
    }

    /// Moves the cursor one character to the left, around the start.
    pub fn move_cursor_left(&mut self)
        ensures
            final(self)@ == old(self)@.with_input(old(self)@.input.move_left()),
            old(self)@.input.cursor == 0 && old(self)@.input.content.len() >= 2
                ==> final(self)@.input.cursor == old(self)@.input.content.len() - 1,
    {
        self.input.move_left();
    }

    /// Moves the cursor one character to the right, around the end.
    pub fn move_cursor_right(&mut self)
        ensures
            final(self)@ == old(self)@.with_input(old(self)@.input.move_right()),
            old(self)@.input.content.len() >= 2 && old(self)@.input.cursor == old(
                self,
            )@.input.content.len() - 1 ==> final(self)@.input.cursor == 0,
    {
        self.input.move_right();
    }

    /// Copies the selected history entry into the clipboard, or the oldest
    /// entry when none is selected. Does nothing while the history is empty.
    pub fn yank_selected(&mut self)
        ensures
            final(self)@ == old(self)@.yank_selected(),
    {
        let entries = self.history.entries();
        if entries.len() > 0 {
            let index = match self.history.selected() {
                Some(index) => index,
                None => 0,
            };
            self.clipboard.yank(entries[index].as_str());
        }
    }

    /// Inserts the clipboard's text into the input line at the cursor; the
    /// cursor ends behind it.
    pub fn paste_buffer(&mut self)
        ensures
            final(self)@ == old(self)@.paste_buffer(),
            final(self)@.input == old(self)@.input.insert_all(old(self)@.clipboard),
    {
        self.clipboard.paste_into(&mut self.input);
    }

    /// The history entries, oldest first.
    pub fn history(&self) -> (entries: &Vec<String>)
        ensures
            entries.deep_view() == self@.history.entries,
    {
        self.history.entries()
    }

    /// Appends `message` to the history. The selection does not move.
    pub fn append_history(&mut self, message: String)
        ensures
            final(self)@ == old(self)@.with_history(old(self)@.history.append(message@)),
    {
        self.history.append(message);
    }

    /// The index of the selected history entry, if one is selected. It is
    /// always the index of an entry.
    pub fn selected_message(&self) -> (selected: Option<usize>)
        ensures
            selected.is_some() == self@.history.selected.is_some(),
            selected matches Some(index) ==> self@.history.selected == Some(index as int) && index
                < self@.history.entries.len(),
    {
        self.history.selected()
    }

    /// Drops the selection.
    pub fn clear_msg_selection(&mut self)
        ensures
            final(self)@ == old(self)@.with_history(old(self)@.history.clear_selection()),
    {
        self.history.clear_selection();
    }

    /// Selects the entry before the selected one, or the last entry.
    pub fn select_prev_msg(&mut self)
        ensures
            final(self)@ == old(self)@.with_history(old(self)@.history.select_previous()),
            old(self)@.history.entries.len() == 0 ==> final(self)@.history.selected.is_none(),
    {
        self.history.select_previous();
    }

    /// Selects the entry after the selected one, or the first entry.
    pub fn select_next_msg(&mut self)
        ensures
            final(self)@ == old(self)@.with_history(old(self)@.history.select_next()),
            old(self)@.history.entries.len() == 0 ==> final(self)@.history.selected.is_none(),
    {
        self.history.select_next();
    }

    /// Hands over the input line for sending, clears it and returns to
    /// normal mode.
    pub fn submit(&mut self) -> (text: String)
        ensures
            text@ == old(self)@.input.content,
            final(self)@ == old(self)@.submit(),
    {
        let text = String::from_str(self.input.content());
        self.input.clear();
        self.editing_mode = EditingMode::Normal;
        text
    }

    /// Handles one key by the bindings of the current mode and says what is
    /// left for the host to do.
    pub fn handle_key(&mut self, key: Key) -> (action: Action)
        ensures
            final(self)@ == old(self)@.step(key),
            action.submitted() == old(self)@.submission(key),
    {
        match self.editing_mode {
            EditingMode::Normal => match key {
                Key::Char(c) => {
                    if c == 'i' {
                        self.switch_editing_mode(EditingMode::Insert);
                    } else if c == 'v' {
                        self.switch_editing_mode(EditingMode::Visual);
                    } else if c == 'x' {
                        self.remove_char();
                    } else if c == 'h' {
                        self.move_cursor_left();
                    } else if c == 'l' {
                        self.move_cursor_right();
                    } else if c == 'j' {
                        self.select_next_msg();
                    } else if c == 'k' {
                        self.select_prev_msg();
                    } else if c == 'y' {
                        self.yank_selected();
                    } else if c == 'p' {
                        self.paste_buffer();
                    }
                    Action::Nothing
                },
                Key::Esc => {
                    self.clear_msg_selection();
                    Action::Nothing
                },
                Key::Enter => Action::Submit(self.submit()),
                _ => Action::Nothing,
            },
            EditingMode::Insert => match key {
                Key::Char(c) => {
                    self.insert_char(c);
                    Action::Nothing
                },
                Key::Backspace => {
                    self.backspace();
                    Action::Nothing
                },
                Key::Delete => {
                    self.remove_char();
                    Action::Nothing
                },
                Key::Esc => {
                    self.switch_editing_mode(EditingMode::Normal);
                    Action::Nothing
                },
                Key::Enter => Action::Submit(self.submit()),
                Key::Other => Action::Nothing,
            },
            EditingMode::Visual => match key {
                Key::Esc => {
                    self.switch_editing_mode(EditingMode::Normal);
                    Action::Nothing
                },
                _ => Action::Nothing,
            },
        }
    }
}

} // verus!
