use chatgptr::display::{help_text, screen_layout, wrap_lines, ScreenLayout, HELP_BOX_HEIGHT};
use chatgptr::mode::EditingMode;

#[test]
fn layout_of_an_empty_input_line() {
    assert_eq!(
        screen_layout(80, 24, 0, 0),
        Some(ScreenLayout {
            inner_width: 78,
            history_height: 18,
            input_height: 3,
            cursor_column: 1,
            cursor_row: 1,
        })
    );
    assert_eq!(HELP_BOX_HEIGHT, 3);
}

#[test]
fn layout_grows_the_input_box_with_the_text() {
    assert_eq!(
        screen_layout(12, 20, 25, 13),
        Some(ScreenLayout {
            inner_width: 10,
            history_height: 12,
            input_height: 5,
            cursor_column: 4,
            cursor_row: 2,
        })
    );
}

#[test]
fn layout_with_no_room_for_history() {
    assert_eq!(
        screen_layout(80, 6, 0, 0),
        Some(ScreenLayout {
            inner_width: 78,
            history_height: 0,
            input_height: 3,
            cursor_column: 1,
            cursor_row: 1,
        })
    );
}

#[test]
fn layout_fails_when_the_screen_is_too_small() {
    assert_eq!(screen_layout(2, 24, 0, 0), None);
    assert_eq!(screen_layout(0, 24, 0, 0), None);
    assert_eq!(screen_layout(80, 5, 0, 0), None);
    assert_eq!(screen_layout(12, 7, 25, 0), None);
    assert_eq!(screen_layout(3, 65535, 65535, 0), None);
    assert_eq!(screen_layout(3, 65535, 0, 65535), None);
}

#[test]
fn layout_at_the_limits() {
    assert_eq!(
        screen_layout(3, 65535, 65529, 65534),
        Some(ScreenLayout {
            inner_width: 1,
            history_height: 0,
            input_height: 65532,
            cursor_column: 1,
            cursor_row: 65535,
        })
    );
    assert_eq!(screen_layout(3, 65535, 65530, 2), None);
    assert_eq!(
        screen_layout(65535, 65535, 65535, 65535),
        Some(ScreenLayout {
            inner_width: 65533,
            history_height: 65528,
            input_height: 4,
            cursor_column: 3,
            cursor_row: 2,
        })
    );
}

#[test]
fn wrap_breaks_at_every_width_characters() {
    assert_eq!(wrap_lines("abcdefgh", 3), vec!["abc", "def", "gh"]);
    assert_eq!(wrap_lines("abcdef", 3), vec!["abc", "def"]);
    assert_eq!(wrap_lines("ab", 3), vec!["ab"]);
    assert_eq!(wrap_lines("abc", 1), vec!["a", "b", "c"]);
}

#[test]
fn wrap_of_empty_text_has_no_rows() {
    assert_eq!(wrap_lines("", 5), Vec::<String>::new());
}

#[test]
fn wrap_counts_characters() {
    assert_eq!(wrap_lines("åßéü", 3), vec!["åßé", "ü"]);
}

#[test]
fn help_text_by_mode() {
    assert_eq!(help_text(EditingMode::Normal), Some("<q: quit> <i: insert mode>"));
    assert_eq!(help_text(EditingMode::Insert), Some("<esc: normal mode>"));
    assert_eq!(help_text(EditingMode::Visual), None);
}
