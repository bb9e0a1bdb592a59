//! What the display derives from the editor's state: how the screen is
//! divided, where the cursor goes, how the input line is broken into rows,
//! and which help line a mode shows.
//!
//! The screen holds three boxes, one above the other: the history, the
//! input and the help line. Each box has a border of one cell all round.

use vstd::prelude::*;
use vstd::string::*;
use vstd::arithmetic::div_mod::lemma_fundamental_div_mod_converse;
use crate::mode::EditingMode;

verus! {

/// The height of the help box: one line of text and its border.
pub const HELP_BOX_HEIGHT: u16 = 3;

/// How a screen is divided, and where in the input box the cursor is shown.
#[derive(Clone, Copy, PartialEq, Eq, Structural, Debug)]
pub struct ScreenLayout {
    /// The width inside a box's border.
    pub inner_width: u16,
    /// The height of the history box.
    pub history_height: u16,
    /// The height of the input box.
    pub input_height: u16,
    /// The cursor's column, counted from the input box's left edge.
    pub cursor_column: u16,
    /// The cursor's row, counted from the input box's top edge.
    pub cursor_row: u16,
}

/// The width that a screen of `width` columns leaves inside a box.
pub open spec fn inner_width(width: int) -> int {
    width - 2
}

/// The height of the input box: the rows that `text_len` characters fill,
/// one more, and the border.
pub open spec fn input_height(width: int, text_len: int) -> int {
    text_len / inner_width(width) + 3
}

/// The height left for the history box.
pub open spec fn history_height(width: int, height: int, text_len: int) -> int {
    height - input_height(width, text_len) - HELP_BOX_HEIGHT
}

/// The column of a cursor at offset `cursor`, counted from the input box's
/// left edge: its column in the wrapped text, behind the border.
pub open spec fn cursor_column(width: int, cursor: int) -> int {
    cursor % inner_width(width) + 1
}

/// The row of a cursor at offset `cursor`, counted from the input box's top
/// edge: its row in the wrapped text, below the border.
pub open spec fn cursor_row(width: int, cursor: int) -> int {
    cursor / inner_width(width) + 1
}

/// Whether a screen of `width` by `height` cells has room for the three
/// boxes and the cursor: the boxes have an inside, the history box does not
/// come out negative, and every number fits its type.
pub open spec fn screen_fits(width: int, height: int, text_len: int, cursor: int) -> bool {
    &&& inner_width(width) > 0
    &&& input_height(width, text_len) <= u16::MAX
    &&& history_height(width, height, text_len) >= 0
    &&& cursor_row(width, cursor) <= u16::MAX
}

/// Divides a screen of `width` by `height` cells for an input line of
/// `text_len` characters with the cursor at offset `cursor`. Returns `None`
/// when the screen has no room for that.
pub fn screen_layout(width: u16, height: u16, text_len: u16, cursor: u16) -> (layout: Option<
    ScreenLayout,
>)
    ensures
        layout.is_some() == screen_fits(width as int, height as int, text_len as int, cursor as int),
        layout matches Some(l) ==> {
            &&& l.inner_width == inner_width(width as int)
            &&& l.input_height == input_height(width as int, text_len as int)
            &&& l.history_height == history_height(width as int, height as int, text_len as int)
            &&& l.cursor_column == cursor_column(width as int, cursor as int)
            &&& l.cursor_row == cursor_row(width as int, cursor as int)
        },
{
    if width <= 2 {
        return None;
    }
    let inner_width = width - 2;
    let text_rows = text_len / inner_width;
    if text_rows > u16::MAX - 3 {
        return None;
    }
    let input_height = text_rows + 3;
    if height < input_height || height - input_height < HELP_BOX_HEIGHT {
        return None;
    }
    let cursor_line = cursor / inner_width;
    if cursor_line == u16::MAX {
        return None;
    }
    Some(
        ScreenLayout {
            inner_width,
            history_height: height - input_height - HELP_BOX_HEIGHT,
            input_height,
            cursor_column: cursor % inner_width + 1,
            cursor_row: cursor_line + 1,
        },
    )
}

/// The number of rows that `len` characters fill at `width` characters a
/// row.
pub open spec fn row_count(len: int, width: int) -> int {
    if len <= 0 {
        0
    } else {
        (len - 1) / width + 1
    }
}

/// Row `index` of `text` broken at every `width` characters.
pub open spec fn wrapped_row(text: Seq<char>, width: int, index: int) -> Seq<char> {
    let end = (index + 1) * width;
    text.subrange(index * width, if end < text.len() { end } else { text.len() as int })
}

/// `text` broken into rows of `width` characters; the last row holds what
/// is left.
pub open spec fn wrapped_rows(text: Seq<char>, width: int) -> Seq<Seq<char>> {
    Seq::new(row_count(text.len() as int, width) as nat, |index: int| wrapped_row(text, width, index))
}

/// `count` full rows end before a text of `len` characters does, and no
/// more rows than `count + 1` are needed, exactly when the text needs
/// `count + 1` rows.
proof fn lemma_row_count_bounds(len: int, width: int, count: int)
    requires
        0 < width,
        0 <= count,
        count * width < len <= (count + 1) * width,
    ensures
        row_count(len, width) == count + 1,
{
    let rest = len - 1 - count * width;
    assert(0 <= rest < width) by (nonlinear_arith)
        requires
            rest == len - 1 - count * width,
            count * width < len <= (count + 1) * width,
    ;
    lemma_fundamental_div_mod_converse(len - 1, width, count, rest);
}

/// Breaks `text` into rows of `width` characters.
pub fn wrap_lines(text: &str, width: usize) -> (rows: Vec<String>)
    requires
        width > 0,
    ensures
        rows.deep_view() == wrapped_rows(text@, width as int),
{
    let len = text.unicode_len();
    let mut rows: Vec<String> = Vec::new();
    let mut start: usize = 0;
    assert(0 * width == 0);
    while start < len
        invariant
            width > 0,
            len == text@.len(),
            start <= len,
            start == len || start == rows@.len() * width,
            start == len ==> rows@.len() == row_count(len as int, width as int),
            forall|index: int|
                0 <= index < rows@.len() ==> (#[trigger] rows@[index])@ == wrapped_row(
                    text@,
                    width as int,
                    index,
                ),
        decreases len - start,
    {
        let ghost count = rows@.len() as int;
        let end = if len - start > width {
            start + width
        } else {
            len
        };
        proof {
            assert((count + 1) * width == count * width + width) by (nonlinear_arith);
            if end == len {
                lemma_row_count_bounds(len as int, width as int, count);
            }
        }
        rows.push(String::from_str(text.substring_char(start, end)));
        start = end;
    }
    proof {
        assert(rows.deep_view() =~= wrapped_rows(text@, width as int));
    }
    rows
}

/// The help line that a mode shows. Visual mode shows none.
pub open spec fn help_line(mode: EditingMode) -> Option<Seq<char>> {
    match mode {
        EditingMode::Normal => Some("<q: quit> <i: insert mode>"@),
        EditingMode::Insert => Some("<esc: normal mode>"@),
        EditingMode::Visual => None,
    }
}

/// The help line for `mode`.
pub fn help_text(mode: EditingMode) -> (text: Option<&'static str>)
    ensures
        text.is_some() == help_line(mode).is_some(),
        text matches Some(line) ==> help_line(mode) == Some(line@),
{
    match mode {
        EditingMode::Normal => Some("<q: quit> <i: insert mode>"),
        EditingMode::Insert => Some("<esc: normal mode>"),
        EditingMode::Visual => None,
    }
}

} // verus!
