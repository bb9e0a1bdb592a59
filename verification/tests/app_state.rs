use chatgptr::app_state::AppState;
use chatgptr::mode::{Action, EditingMode, Key};

fn state_with_history(entries: &[&str]) -> AppState {
    let mut state = AppState::default();
    for entry in entries {
        state.append_history(String::from(*entry));
    }
    state
}

fn type_text(state: &mut AppState, text: &str) {
    for c in text.chars() {
        state.insert_char(c);
    }
}

fn press(state: &mut AppState, keys: &str) {
    for c in keys.chars() {
        assert_eq!(state.handle_key(Key::Char(c)), Action::Nothing);
    }
}

#[test]
fn default_state_is_empty() {
    let state = AppState::default();
    assert_eq!(state.editing_mode(), EditingMode::Normal);
    assert_eq!(state.input_text(), "");
    assert_eq!(state.cursor_position(), 0);
    assert!(state.history().is_empty());
    assert_eq!(state.selected_message(), None);
}

#[test]
fn new_state_opens_with_sample_history() {
    let state = AppState::new();
    assert_eq!(state.editing_mode(), EditingMode::Normal);
    assert_eq!(state.input_text(), "");
    assert_eq!(state.cursor_position(), 0);
    assert_eq!(state.selected_message(), None);
    assert_eq!(
        state.history(),
        &vec![
            String::from("What is Rust?"),
            String::from("A blazingly fast programming language!"),
            String::from(
                "Qui consequat deserunt sint. Velit excepteur Lorem ut excepteur ad labore voluptate."
            ),
        ]
    );
}

#[test]
fn default_mode_is_normal() {
    assert_eq!(EditingMode::default(), EditingMode::Normal);
}

#[test]
fn switch_editing_mode_sets_the_mode() {
    let mut state = AppState::default();
    state.switch_editing_mode(EditingMode::Visual);
    assert_eq!(state.editing_mode(), EditingMode::Visual);
    state.switch_editing_mode(EditingMode::Insert);
    assert_eq!(state.editing_mode(), EditingMode::Insert);
    state.switch_editing_mode(EditingMode::Normal);
    assert_eq!(state.editing_mode(), EditingMode::Normal);
}

#[test]
fn insert_char_advances_cursor() {
    let mut state = AppState::default();
    state.insert_char('h');
    state.insert_char('i');
    assert_eq!(state.input_text(), "hi");
    assert_eq!(state.cursor_position(), 2);
}

#[test]
fn move_cursor_left_wraps_on_hello() {
    let mut state = AppState::default();
    state.set_input_text("Hello");
    assert_eq!(state.cursor_position(), 0);
    state.move_cursor_left();
    assert_eq!(state.cursor_position(), 4);
    state.move_cursor_right();
    assert_eq!(state.cursor_position(), 0);
}

#[test]
fn remove_char_and_backspace() {
    let mut state = AppState::default();
    state.set_input_text("abcd");
    state.move_cursor_right();
    state.remove_char();
    assert_eq!(state.input_text(), "acd");
    assert_eq!(state.cursor_position(), 1);
    state.backspace();
    assert_eq!(state.input_text(), "cd");
    assert_eq!(state.cursor_position(), 0);
    state.backspace();
    assert_eq!(state.input_text(), "cd");
    assert_eq!(state.cursor_position(), 0);
}

#[test]
fn set_input_text_clamps_and_clear_resets_cursor() {
    let mut state = AppState::default();
    type_text(&mut state, "hello");
    state.set_input_text("hi");
    assert_eq!(state.input_text(), "hi");
    assert_eq!(state.cursor_position(), 2);
    state.clear_input_text();
    assert_eq!(state.input_text(), "");
    assert_eq!(state.cursor_position(), 0);
}

#[test]
fn select_next_msg_cycles() {
    let mut state = state_with_history(&["a", "b", "c"]);
    assert_eq!(state.selected_message(), None);
    state.select_next_msg();
    assert_eq!(state.selected_message(), Some(0));
    state.select_next_msg();
    assert_eq!(state.selected_message(), Some(1));
    state.select_next_msg();
    assert_eq!(state.selected_message(), Some(2));
    state.select_next_msg();
    assert_eq!(state.selected_message(), Some(0));
}

#[test]
fn select_prev_msg_cycles_backwards() {
    let mut state = state_with_history(&["a", "b", "c"]);
    state.select_prev_msg();
    assert_eq!(state.selected_message(), Some(2));
    state.select_prev_msg();
    state.select_prev_msg();
    assert_eq!(state.selected_message(), Some(0));
    state.select_prev_msg();
    assert_eq!(state.selected_message(), Some(2));
    state.clear_msg_selection();
    assert_eq!(state.selected_message(), None);
}

#[test]
fn selection_on_empty_history_is_a_no_op() {
    let mut state = AppState::default();
    state.select_prev_msg();
    assert_eq!(state.selected_message(), None);
    state.select_next_msg();
    assert_eq!(state.selected_message(), None);
}

#[test]
fn yank_selected_then_paste_into_empty_buffer() {
    let mut state = state_with_history(&["a", "b", "c"]);
    state.select_next_msg();
    state.select_next_msg();
    assert_eq!(state.selected_message(), Some(1));
    state.yank_selected();
    state.paste_buffer();
    assert_eq!(state.input_text(), "b");
    assert_eq!(state.cursor_position(), 1);
}

#[test]
fn yank_without_selection_takes_the_oldest_entry() {
    let mut state = state_with_history(&["first", "second"]);
    state.yank_selected();
    state.paste_buffer();
    assert_eq!(state.input_text(), "first");
    assert_eq!(state.cursor_position(), 5);
}

#[test]
fn yank_on_empty_history_keeps_the_clipboard() {
    let mut state = state_with_history(&["kept"]);
    state.yank_selected();
    let mut empty = AppState::default();
    empty.yank_selected();
    empty.paste_buffer();
    assert_eq!(empty.input_text(), "");
    state.paste_buffer();
    assert_eq!(state.input_text(), "kept");
}

#[test]
fn yank_overwrites_the_clipboard() {
    let mut state = state_with_history(&["one", "two"]);
    state.select_next_msg();
    state.yank_selected();
    state.select_next_msg();
    state.yank_selected();
    state.paste_buffer();
    assert_eq!(state.input_text(), "two");
}

#[test]
fn append_history_keeps_selection() {
    let mut state = state_with_history(&["a", "b"]);
    state.select_prev_msg();
    assert_eq!(state.selected_message(), Some(1));
    state.append_history(String::from("c"));
    assert_eq!(state.selected_message(), Some(1));
    assert_eq!(state.history().len(), 3);
    assert_eq!(state.history()[2], "c");
}

#[test]
fn submit_hands_over_text_and_clears() {
    let mut state = AppState::default();
    state.switch_editing_mode(EditingMode::Insert);
    type_text(&mut state, "hello");
    assert_eq!(state.submit(), "hello");
    assert_eq!(state.input_text(), "");
    assert_eq!(state.cursor_position(), 0);
    assert_eq!(state.editing_mode(), EditingMode::Normal);
}

#[test]
fn normal_i_enters_insert_and_esc_returns() {
    let mut state = AppState::default();
    assert_eq!(state.editing_mode(), EditingMode::Normal);
    assert_eq!(state.handle_key(Key::Char('i')), Action::Nothing);
    assert_eq!(state.editing_mode(), EditingMode::Insert);
    assert_eq!(state.handle_key(Key::Esc), Action::Nothing);
    assert_eq!(state.editing_mode(), EditingMode::Normal);
}

#[test]
fn normal_v_enters_visual_and_only_esc_leaves() {
    let mut state = state_with_history(&["a"]);
    state.set_input_text("text");
    press(&mut state, "v");
    assert_eq!(state.editing_mode(), EditingMode::Visual);
    for key in [
        Key::Char('i'),
        Key::Char('x'),
        Key::Char('j'),
        Key::Char('p'),
        Key::Enter,
        Key::Backspace,
        Key::Delete,
        Key::Other,
    ] {
        assert_eq!(state.handle_key(key), Action::Nothing);
        assert_eq!(state.editing_mode(), EditingMode::Visual);
        assert_eq!(state.input_text(), "text");
        assert_eq!(state.cursor_position(), 0);
        assert_eq!(state.selected_message(), None);
    }
    assert_eq!(state.handle_key(Key::Esc), Action::Nothing);
    assert_eq!(state.editing_mode(), EditingMode::Normal);
}

#[test]
fn normal_keys_edit_and_navigate() {
    let mut state = state_with_history(&["a", "b", "c"]);
    state.set_input_text("Hello");
    press(&mut state, "h");
    assert_eq!(state.cursor_position(), 4);
    press(&mut state, "l");
    assert_eq!(state.cursor_position(), 0);
    press(&mut state, "l");
    assert_eq!(state.cursor_position(), 1);
    press(&mut state, "x");
    assert_eq!(state.input_text(), "Hllo");
    assert_eq!(state.cursor_position(), 1);
    press(&mut state, "j");
    assert_eq!(state.selected_message(), Some(0));
    press(&mut state, "k");
    assert_eq!(state.selected_message(), Some(2));
    press(&mut state, "y");
    press(&mut state, "p");
    assert_eq!(state.input_text(), "Hcllo");
    assert_eq!(state.cursor_position(), 2);
    assert_eq!(state.handle_key(Key::Esc), Action::Nothing);
    assert_eq!(state.selected_message(), None);
    assert_eq!(state.editing_mode(), EditingMode::Normal);
}

#[test]
fn normal_ignores_unbound_keys() {
    let mut state = state_with_history(&["a"]);
    state.set_input_text("abc");
    state.select_next_msg();
    for key in [Key::Char('q'), Key::Char('u'), Key::Char('z'), Key::Backspace, Key::Delete, Key::Other]
    {
        assert_eq!(state.handle_key(key), Action::Nothing);
        assert_eq!(state.editing_mode(), EditingMode::Normal);
        assert_eq!(state.input_text(), "abc");
        assert_eq!(state.cursor_position(), 0);
        assert_eq!(state.selected_message(), Some(0));
    }
}

#[test]
fn insert_keys_type_and_delete() {
    let mut state = AppState::default();
    press(&mut state, "i");
    press(&mut state, "hip");
    assert_eq!(state.input_text(), "hip");
    assert_eq!(state.cursor_position(), 3);
    assert_eq!(state.handle_key(Key::Backspace), Action::Nothing);
    assert_eq!(state.input_text(), "hi");
    assert_eq!(state.cursor_position(), 2);
    assert_eq!(state.handle_key(Key::Delete), Action::Nothing);
    assert_eq!(state.input_text(), "hi");
    assert_eq!(state.handle_key(Key::Other), Action::Nothing);
    assert_eq!(state.input_text(), "hi");
    assert_eq!(state.editing_mode(), EditingMode::Insert);
}

#[test]
fn insert_mode_types_the_letters_that_normal_mode_binds() {
    let mut state = state_with_history(&["a"]);
    press(&mut state, "i");
    press(&mut state, "ivxhljkypq");
    assert_eq!(state.input_text(), "ivxhljkypq");
    assert_eq!(state.editing_mode(), EditingMode::Insert);
    assert_eq!(state.selected_message(), None);
}

#[test]
fn enter_in_insert_mode_submits_and_returns_to_normal() {
    let mut state = AppState::default();
    press(&mut state, "i");
    press(&mut state, "hello");
    assert_eq!(state.handle_key(Key::Enter), Action::Submit(String::from("hello")));
    assert_eq!(state.editing_mode(), EditingMode::Normal);
    assert_eq!(state.input_text(), "");
    assert_eq!(state.cursor_position(), 0);
    assert!(state.history().is_empty());
}

#[test]
fn enter_in_normal_mode_submits() {
    let mut state = AppState::default();
    state.set_input_text("question");
    assert_eq!(state.handle_key(Key::Enter), Action::Submit(String::from("question")));
    assert_eq!(state.editing_mode(), EditingMode::Normal);
    assert_eq!(state.input_text(), "");
    assert_eq!(state.handle_key(Key::Enter), Action::Submit(String::new()));
}
