use kadai::inputs::Input;

fn field(text: &str) -> Input {
    Input::from(String::from(text))
}

fn text_of(input: &Input) -> String {
    input.text.iter().collect()
}

#[test]
fn new_field_is_empty() {
    let f = Input::new();
    assert_eq!(f.text.len(), 0);
    assert_eq!(f.pos, 0);
}

#[test]
fn from_places_caret_at_end() {
    let f = field("abc");
    assert_eq!(text_of(&f), "abc");
    assert_eq!(f.pos, 3);
}

#[test]
fn leading_space_is_rejected() {
    let mut f = Input::new();
    f.push(' ');
    assert_eq!(f.text.len(), 0);
    assert_eq!(f.pos, 0);
}

#[test]
fn push_inserts_at_caret() {
    let mut f = field("ac");
    f.move_left();
    f.push('b');
    assert_eq!(text_of(&f), "abc");
    assert_eq!(f.pos, 2);
}

#[test]
fn interior_space_is_accepted() {
    let mut f = field("ab");
    f.push(' ');
    f.push('c');
    assert_eq!(text_of(&f), "ab c");
    assert_eq!(f.pos, 4);
}

#[test]
fn pop_deletes_before_caret() {
    let mut f = field("abc");
    f.pop();
    assert_eq!(text_of(&f), "ab");
    assert_eq!(f.pos, 2);
    f.move_start();
    f.pop();
    assert_eq!(text_of(&f), "ab");
    assert_eq!(f.pos, 0);
}

#[test]
fn extract_drains_the_field() {
    let mut f = field("notes");
    let taken = f.extract();
    assert_eq!(taken, "notes");
    assert_eq!(f.text.len(), 0);
    assert_eq!(f.pos, 0);
}

#[test]
fn clear_drops_content_silently() {
    let mut f = field("notes");
    f.clear();
    assert_eq!(f.text.len(), 0);
    assert_eq!(f.pos, 0);
}

#[test]
fn caret_motion_saturates_at_both_ends() {
    let mut f = field("ab");
    f.move_right();
    assert_eq!(f.pos, 2);
    f.move_start();
    f.move_left();
    assert_eq!(f.pos, 0);
    f.move_right();
    assert_eq!(f.pos, 1);
    f.move_end();
    assert_eq!(f.pos, 2);
}

#[test]
fn move_to_prev_space_finds_nearest_space() {
    let mut f = field("one two three");
    f.move_to_prev_space();
    assert_eq!(f.pos, 7);
    f.move_to_prev_space();
    assert_eq!(f.pos, 3);
    f.move_to_prev_space();
    assert_eq!(f.pos, 0);
}

#[test]
fn move_to_next_space_skips_current_position() {
    let mut f = field("one two three");
    f.move_start();
    f.move_to_next_space();
    assert_eq!(f.pos, 3);
    f.move_to_next_space();
    assert_eq!(f.pos, 7);
    f.move_to_next_space();
    assert_eq!(f.pos, 13);
}

#[test]
fn word_delete_round_trip_empties_two_words() {
    // "hello world" with the caret at the end: two word-deletes leave
    // nothing behind.
    let mut f = field("hello world");
    assert_eq!(f.pos, 11);
    f.delete_to_left_space();
    assert_eq!(text_of(&f), "hello");
    assert_eq!(f.pos, 5);
    f.delete_to_left_space();
    assert_eq!(text_of(&f), "");
    assert_eq!(f.pos, 0);
}

#[test]
fn word_delete_in_the_middle_splices() {
    let mut f = field("one two three");
    f.move_to_prev_space();
    assert_eq!(f.pos, 7);
    f.delete_to_left_space();
    assert_eq!(text_of(&f), "one three");
    assert_eq!(f.pos, 3);
}

#[test]
fn trailing_spaces_are_counted() {
    let f = field("ab   ");
    assert_eq!(f.num_trailing_spaces(), 3);
    let g = field("ab");
    assert_eq!(g.num_trailing_spaces(), 0);
    let h = field("   ");
    assert_eq!(h.num_trailing_spaces(), 3);
}

#[test]
fn last_returns_final_character() {
    let f = field("abc");
    assert_eq!(f.last(), "c");
    let e = Input::new();
    assert_eq!(e.last(), "");
}

#[test]
fn name_builder_sets_the_label() {
    let f = Input::new().name(String::from("Summary"));
    assert_eq!(f.name, "Summary");
    assert_eq!(f.text.len(), 0);
}
