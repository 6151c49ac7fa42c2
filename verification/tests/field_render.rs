use jobdash::input::{add_cursor, add_reveal_cursor, Input};

fn text_of(s: &str) -> Vec<char> {
    s.chars().collect()
}

#[test]
fn secret_field_shows_only_mask_glyphs_beside_the_cursor() {
    let text = text_of("hunter2");
    let f = Input::new(true).rendered(3, &text, 80);
    assert!(f.before.iter().all(|c| *c == '*'));
    assert!(f.after.iter().all(|c| *c == '*'));
    assert_eq!(f.at, 't', "only the cursor cell reveals an entered character");
    assert_eq!(f.before.len() + 1 + f.after.len(), text.len());
}

#[test]
fn secret_mask_is_as_long_as_the_text() {
    let text = text_of("hunter2");
    let f = Input::new(true).rendered(7, &text, 80);
    assert_eq!(f.before.len(), 7);
    assert!(f.before.iter().all(|c| *c == '*'));
    assert_eq!(f.at, ' ');
    assert!(f.after.is_empty());
}

#[test]
fn plain_field_splits_at_the_cursor() {
    let text = text_of("hello");
    let f = Input::new(false).rendered(1, &text, 80);
    assert_eq!(f.before, vec!['h']);
    assert_eq!(f.at, 'e');
    assert_eq!(f.after, text_of("llo"));
}

#[test]
fn narrow_field_scrolls_to_keep_the_cursor_visible() {
    let text = text_of("abcdefghijklmnopqrstuvwxyz1234");
    let f = Input::new(false).rendered(20, &text, 10);
    assert_eq!(f.before, text_of("nopqrst"));
    assert_eq!(f.at, 'u');
    assert_eq!(f.after, text_of("vwxyz1234"));
}

#[test]
fn scrolled_secret_field_reveals_the_character_under_the_cursor() {
    let text = text_of("abcdefg");
    let f = Input::new(true).rendered(5, &text, 3);
    // offset = 5 - 3 + 3 = 5: two masked cells remain visible
    assert!(f.before.is_empty());
    assert_eq!(f.at, 'f', "the cursor cell shows text[5], not a window-shifted character");
    assert_eq!(f.after, vec!['*']);
}

#[test]
fn scrolled_secret_field_past_the_end_reveals_nothing() {
    let text = text_of("abcdefg");
    let f = Input::new(true).rendered(7, &text, 3);
    assert!(f.before.is_empty());
    assert_eq!(f.at, ' ', "a cursor past the end of the text reveals no character");
    assert!(f.after.is_empty());
}

#[test]
fn wide_field_needs_no_scrolling() {
    let text = text_of("short");
    let f = Input::new(false).rendered(5, &text, 40);
    assert_eq!(f.before, text_of("short"));
    assert_eq!(f.at, ' ');
    assert!(f.after.is_empty());
}

#[test]
fn add_cursor_pads_with_a_space_at_the_end() {
    let s = text_of("ab");
    let f = add_cursor(&s, 2);
    assert_eq!(f.before, text_of("ab"));
    assert_eq!(f.at, ' ');
    assert!(f.after.is_empty());
}

#[test]
fn add_reveal_cursor_overrides_the_cursor_cell() {
    let s = text_of("**");
    let f = add_reveal_cursor(&s, 0, 'x');
    assert_eq!(f.before, Vec::<char>::new());
    assert_eq!(f.at, 'x');
    assert_eq!(f.after, vec!['*']);
}
