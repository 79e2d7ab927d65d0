use kadai::inputs::Input;
use kadai::wrap::get_wrapped_cursor_pos;

fn field(text: &str) -> Input {
    Input::from(String::from(text))
}

#[test]
fn caret_at_end_sits_on_last_wrapped_line() {
    // "aaaa bbbb cccc" wrapped at width 5 becomes three lines of four; the
    // caret at the end of the text lands at (length of last line, lines - 1).
    let f = field("aaaa bbbb cccc");
    let (col, row) = get_wrapped_cursor_pos(&f, 5);
    assert_eq!((col, row), (4, 2));
}

#[test]
fn caret_on_first_line_keeps_raw_column() {
    let mut f = field("aaaa bbbb cccc");
    f.move_start();
    f.move_right();
    f.move_right();
    let (col, row) = get_wrapped_cursor_pos(&f, 5);
    assert_eq!((col, row), (2, 0));
}

#[test]
fn caret_lands_on_second_line_after_consumed_space() {
    // Position 5 sits on the first character of the second word; the space
    // between the words was consumed by the wrap.
    let mut f = field("aaaa bbbb cccc");
    f.move_start();
    for _ in 0..5 {
        f.move_right();
    }
    let (col, row) = get_wrapped_cursor_pos(&f, 5);
    assert_eq!((col, row), (0, 1));
}

#[test]
fn unwrapped_text_stays_on_row_zero() {
    let f = field("abc");
    let (col, row) = get_wrapped_cursor_pos(&f, 10);
    assert_eq!((col, row), (3, 0));
}

#[test]
fn trailing_spaces_extend_the_last_line() {
    // The wrap trims trailing spaces from the produced lines, but the caret
    // still counts them: the column runs past the trimmed line's end.
    let f = field("aaaa bbbb cc  ");
    let (col, row) = get_wrapped_cursor_pos(&f, 5);
    assert_eq!((col, row), (4, 2));
}

#[test]
fn empty_field_sits_at_origin() {
    let f = Input::new();
    let (col, row) = get_wrapped_cursor_pos(&f, 8);
    assert_eq!((col, row), (0, 0));
}

#[test]
fn long_word_is_broken_at_width() {
    let f = field("aaaaabbb");
    let (col, row) = get_wrapped_cursor_pos(&f, 5);
    assert_eq!((col, row), (3, 1));
}
