use text_input_bridge::{InputView, TextField};

fn field(text: &str) -> TextField {
    TextField::new(text)
}

#[test]
fn new_field_holds_its_text_and_nothing_else() {
    let f = field("hello");
    assert_eq!(f.text(), Some("hello".to_string()));
    assert_eq!(f.len_utf16(), 5);
    assert_eq!(f.selected_text_range(), None);
    assert_eq!(f.marked_text_range(), None);
}

#[test]
fn length_counts_units_not_characters() {
    assert_eq!(field("a\u{1f600}b").len_utf16(), 4);
}

#[test]
fn text_for_range_gives_the_substring() {
    let f = field("hello world");
    assert_eq!(f.text_for_range(0..5), Some("hello".to_string()));
    assert_eq!(f.text_for_range(6..11), Some("world".to_string()));
    assert_eq!(f.text_for_range(0..11), Some("hello world".to_string()));
}

#[test]
fn text_for_empty_range_is_empty_text() {
    let f = field("hello");
    assert_eq!(f.text_for_range(2..2), Some(String::new()));
    assert_eq!(f.text_for_range(5..5), Some(String::new()));
}

#[test]
fn text_for_range_out_of_bounds_is_absent() {
    let f = field("hello");
    assert_eq!(f.text_for_range(0..6), None);
    assert_eq!(f.text_for_range(6..7), None);
    assert_eq!(f.text_for_range(usize::MAX - 1..usize::MAX), None);
}

#[test]
fn text_for_reversed_range_is_absent() {
    let f = field("hello");
    assert_eq!(f.text_for_range(3..1), None);
}

#[test]
fn text_for_range_that_cuts_a_pair_is_absent() {
    let f = field("a\u{1f600}b");
    assert_eq!(f.text_for_range(1..3), Some("\u{1f600}".to_string()));
    assert_eq!(f.text_for_range(1..2), None);
    assert_eq!(f.text_for_range(2..3), None);
    assert_eq!(f.text_for_range(0..2), None);
    assert_eq!(f.text_for_range(3..4), Some("b".to_string()));
}

#[test]
fn select_sets_the_selection() {
    let mut f = field("hello");
    f.select(Some(1..3));
    assert_eq!(f.selected_text_range(), Some(1..3));
    f.select(None);
    assert_eq!(f.selected_text_range(), None);
    assert_eq!(f.text(), Some("hello".to_string()));
}

#[test]
fn replace_puts_text_in_place_of_the_range() {
    let mut f = field("hello world");
    f.replace_text_in_range(Some(0..5), "howdy,");
    assert_eq!(f.text(), Some("howdy, world".to_string()));
    assert_eq!(f.selected_text_range(), Some(6..6));
    assert_eq!(f.marked_text_range(), None);
}

#[test]
fn replace_with_empty_text_deletes() {
    let mut f = field("hello world");
    f.replace_text_in_range(Some(5..11), "");
    assert_eq!(f.text(), Some("hello".to_string()));
    assert_eq!(f.selected_text_range(), Some(5..5));
}

#[test]
fn replace_empty_range_inserts() {
    let mut f = field("held");
    f.replace_text_in_range(Some(3..3), "lo wor");
    assert_eq!(f.text(), Some("hello word".to_string()));
    assert_eq!(f.selected_text_range(), Some(9..9));
}

#[test]
fn replace_without_range_acts_on_the_selection() {
    let mut f = field("hello world");
    f.select(Some(6..11));
    f.replace_text_in_range(None, "there");
    assert_eq!(f.text(), Some("hello there".to_string()));
    assert_eq!(f.selected_text_range(), Some(11..11));
}

#[test]
fn replace_without_range_prefers_the_marked_text() {
    let mut f = field("ab");
    f.replace_and_mark_text_in_range(Some(1..1), "xyz", None);
    assert_eq!(f.marked_text_range(), Some(1..4));
    f.select(Some(0..1));
    f.replace_text_in_range(None, "Q");
    assert_eq!(f.text(), Some("aQb".to_string()));
    assert_eq!(f.marked_text_range(), None);
    assert_eq!(f.selected_text_range(), Some(2..2));
}

#[test]
fn replace_without_range_or_selection_appends() {
    let mut f = field("hello");
    f.replace_text_in_range(None, "!");
    assert_eq!(f.text(), Some("hello!".to_string()));
    assert_eq!(f.selected_text_range(), Some(6..6));
}

#[test]
fn replace_clips_a_range_that_runs_past_the_end() {
    let mut f = field("hello");
    f.replace_text_in_range(Some(3..100), "p");
    assert_eq!(f.text(), Some("help".to_string()));
    let mut g = field("hello");
    g.replace_text_in_range(Some(50..100), "!");
    assert_eq!(g.text(), Some("hello!".to_string()));
    assert_eq!(g.selected_text_range(), Some(6..6));
}

#[test]
fn replace_treats_a_reversed_range_as_empty_at_its_start() {
    let mut f = field("hello");
    f.replace_text_in_range(Some(4..2), "X");
    assert_eq!(f.text(), Some("hellXo".to_string()));
}

#[test]
fn replace_counts_the_caret_in_units() {
    let mut f = field("ab");
    f.replace_text_in_range(Some(1..1), "\u{1f600}");
    assert_eq!(f.text(), Some("a\u{1f600}b".to_string()));
    assert_eq!(f.selected_text_range(), Some(3..3));
    assert_eq!(f.len_utf16(), 4);
}

#[test]
fn replace_then_query_gives_the_text_back() {
    let mut f = field("0123456789");
    let s = "caf\u{e9} \u{1f600}";
    f.replace_text_in_range(Some(2..7), s);
    let len = s.encode_utf16().count();
    assert_eq!(len, 7);
    assert_eq!(f.text_for_range(2..2 + len), Some(s.to_string()));
    assert_eq!(f.text(), Some("01caf\u{e9} \u{1f600}789".to_string()));
}

#[test]
fn replace_and_mark_marks_the_new_text() {
    let mut f = field("hello world");
    f.replace_and_mark_text_in_range(Some(6..11), "wo", None);
    assert_eq!(f.text(), Some("hello wo".to_string()));
    assert_eq!(f.marked_text_range(), Some(6..8));
    assert_eq!(f.selected_text_range(), Some(8..8));
}

#[test]
fn replace_and_mark_places_the_selection_inside_the_new_text() {
    let mut f = field("hello ");
    f.replace_and_mark_text_in_range(Some(6..6), "world", Some(1..3));
    assert_eq!(f.marked_text_range(), Some(6..11));
    assert_eq!(f.selected_text_range(), Some(7..9));
}

#[test]
fn replace_and_mark_clips_the_selection_to_the_new_text() {
    let mut f = field("ab");
    f.replace_and_mark_text_in_range(Some(1..1), "xyz", Some(2..9));
    assert_eq!(f.selected_text_range(), Some(3..4));
    let mut g = field("ab");
    g.replace_and_mark_text_in_range(Some(1..1), "xyz", Some(7..9));
    assert_eq!(g.selected_text_range(), Some(4..4));
    let mut h = field("ab");
    h.replace_and_mark_text_in_range(Some(1..1), "xyz", Some(2..1));
    assert_eq!(h.selected_text_range(), Some(3..3));
}

#[test]
fn replace_and_mark_with_empty_text_marks_nothing() {
    let mut f = field("hello");
    f.replace_and_mark_text_in_range(Some(1..3), "", None);
    assert_eq!(f.text(), Some("hlo".to_string()));
    assert_eq!(f.marked_text_range(), None);
    assert_eq!(f.selected_text_range(), Some(1..1));
}

#[test]
fn replace_and_mark_again_replaces_the_marked_text() {
    let mut f = field("ab");
    f.replace_and_mark_text_in_range(Some(1..1), "k", None);
    f.replace_and_mark_text_in_range(None, "ka", None);
    assert_eq!(f.text(), Some("akab".to_string()));
    assert_eq!(f.marked_text_range(), Some(1..3));
}

#[test]
fn unmark_keeps_the_text_and_clears_the_mark() {
    let mut f = field("ab");
    f.replace_and_mark_text_in_range(Some(1..1), "xyz", Some(0..1));
    f.unmark_text();
    assert_eq!(f.marked_text_range(), None);
    assert_eq!(f.text(), Some("axyzb".to_string()));
    assert_eq!(f.selected_text_range(), Some(1..2));
}

#[test]
fn unmark_without_mark_changes_nothing() {
    let mut f = field("ab");
    f.select(Some(0..1));
    f.unmark_text();
    assert_eq!(f.marked_text_range(), None);
    assert_eq!(f.text(), Some("ab".to_string()));
    assert_eq!(f.selected_text_range(), Some(0..1));
}

#[test]
fn replace_inside_a_pair_leaves_text_that_does_not_decode() {
    let mut f = field("\u{1f600}");
    f.replace_text_in_range(Some(1..1), "x");
    assert_eq!(f.len_utf16(), 3);
    assert_eq!(f.text(), None);
    assert_eq!(f.text_for_range(1..2), Some("x".to_string()));
}
