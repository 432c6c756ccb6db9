use refx_ui::notes::wrap_note_columns;

/// A box 100 wide with a 10-point font holds (100 - 12) / 5.5 = 16 columns.
const COLUMNS_100_AT_10: usize = 16;
/// A box 400 wide with a 10-point font holds (400 - 12) / 5.5 = 70 columns.
const COLUMNS_400_AT_10: usize = 70;

#[test]
fn a_note_never_paints_outside_its_own_box() {
    let wrapped = wrap_note_columns("aaa bbb ccc ddd eee fff", COLUMNS_100_AT_10);
    for line in wrapped.lines() {
        assert!(
            line.chars().count() <= 16,
            "line {line:?} is {} long, wider than the box",
            line.chars().count()
        );
    }
    assert!(wrapped.contains('\n'), "a long text must be wrapped: {wrapped:?}");
    let letters: String = wrapped.chars().filter(|c| c.is_alphanumeric()).collect();
    assert_eq!(letters, "aaabbbcccdddeeefff");
}

#[test]
fn one_very_long_word_is_broken_instead_of_overflowing() {
    let wrapped = wrap_note_columns(&"x".repeat(60), COLUMNS_100_AT_10);
    for line in wrapped.lines() {
        assert!(line.chars().count() <= 16, "{line:?}");
    }
    assert_eq!(wrapped.chars().filter(|c| *c == 'x').count(), 60);
}

#[test]
fn explicit_line_breaks_survive_wrapping() {
    let wrapped = wrap_note_columns("one\ntwo", COLUMNS_400_AT_10);
    assert_eq!(wrapped, "one\ntwo");
}

#[test]
fn wrapping_places_words_exactly() {
    assert_eq!(
        wrap_note_columns("aaa bbb ccc ddd eee fff", 16),
        "aaa bbb ccc ddd\neee fff"
    );
    assert_eq!(wrap_note_columns("abcdefghij", 4), "abcd\nefgh\nij");
    assert_eq!(wrap_note_columns("ab abcdefghij", 4), "ab\nabcd\nefgh\nij");
    assert_eq!(wrap_note_columns("one\r\ntwo\n", 10), "one\ntwo");
    assert_eq!(wrap_note_columns("", 10), "");
}

#[test]
fn crlf_endings_lose_their_carriage_return_but_keep_the_break() {
    assert_eq!(wrap_note_columns("ab\r\ncd\r\n", 8), "ab\ncd");
    assert_eq!(wrap_note_columns("a\rb", 8), "a\rb", "a lone carriage return is text");
    assert_eq!(wrap_note_columns("x\n\ny", 8), "x\n\ny", "an empty line survives");
}
