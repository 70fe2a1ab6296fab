use blank_fields::blank_field::{style_active_blank_field, BlankField};
use blank_fields::intent::{Intent, Progress};
use blank_fields::text::Emphasis;
use blank_fields::{get_text_input, ResultKind};

fn typed(text: &str) -> BlankField {
    let mut field = BlankField::default();
    for c in text.chars() {
        field.insert(c);
    }
    field
}

#[test]
fn a_new_field_is_empty_with_the_caret_at_the_start() {
    let field = BlankField::default();
    assert_eq!(field.text(), "");
    assert_eq!(field.cursor(), 0);
    assert!(field.is_empty());
}

#[test]
fn insert_puts_the_character_at_the_caret_and_moves_behind_it() {
    let mut field = BlankField::default();
    field.insert('a');
    assert_eq!(field.text(), "a");
    assert_eq!(field.cursor(), 1);
    field.insert('c');
    field.move_cursor(-1);
    field.insert('b');
    assert_eq!(field.text(), "abc");
    assert_eq!(field.cursor(), 2);
    assert!(!field.is_empty());
}

#[test]
fn typing_ab_then_backspace_leaves_a_with_the_caret_behind_it() {
    let mut field = typed("ab");
    assert_eq!(field.text(), "ab");
    assert_eq!(field.cursor(), 2);
    field.delete_before_cursor();
    assert_eq!(field.text(), "a");
    assert_eq!(field.cursor(), 1);
}

#[test]
fn backspace_undoes_an_insert_in_the_middle() {
    let mut field = typed("hello");
    field.move_cursor(-2);
    field.insert('X');
    assert_eq!(field.text(), "helXlo");
    assert_eq!(field.cursor(), 4);
    field.delete_before_cursor();
    assert_eq!(field.text(), "hello");
    assert_eq!(field.cursor(), 3);
}

#[test]
fn backspace_at_the_start_changes_nothing() {
    let mut field = typed("ab");
    field.move_cursor(-2);
    assert_eq!(field.cursor(), 0);
    field.delete_before_cursor();
    assert_eq!(field.text(), "ab");
    assert_eq!(field.cursor(), 0);

    let mut empty = BlankField::default();
    empty.delete_before_cursor();
    assert_eq!(empty.text(), "");
    assert_eq!(empty.cursor(), 0);
}

#[test]
fn backspace_removes_the_character_before_the_caret_only() {
    let mut field = typed("abc");
    field.move_cursor(-1);
    field.delete_before_cursor();
    assert_eq!(field.text(), "ac");
    assert_eq!(field.cursor(), 1);
}

#[test]
fn move_cursor_stops_at_both_ends() {
    let mut field = typed("abc");
    field.move_cursor(1);
    assert_eq!(field.cursor(), 3);
    field.move_cursor(-1);
    assert_eq!(field.cursor(), 2);
    field.move_cursor(-1);
    field.move_cursor(-1);
    assert_eq!(field.cursor(), 0);
    field.move_cursor(-1);
    assert_eq!(field.cursor(), 0);
    field.move_cursor(2);
    assert_eq!(field.cursor(), 2);
    field.move_cursor(7);
    assert_eq!(field.cursor(), 3);
    field.move_cursor(-7);
    assert_eq!(field.cursor(), 0);
    field.move_cursor(0);
    assert_eq!(field.cursor(), 0);
    field.move_cursor(isize::MAX);
    assert_eq!(field.cursor(), 3);
    field.move_cursor(isize::MIN);
    assert_eq!(field.cursor(), 0);
    assert_eq!(field.text(), "abc");
}

#[test]
fn the_caret_counts_characters_not_bytes() {
    let mut field = BlankField::default();
    field.insert('é');
    field.insert('日');
    field.insert('x');
    assert_eq!(field.text(), "é日x");
    assert_eq!(field.cursor(), 3);
    field.move_cursor(-2);
    assert_eq!(field.render(), ("é", "日x"));
    field.insert('ß');
    assert_eq!(field.text(), "éß日x");
    assert_eq!(field.cursor(), 2);
    field.delete_before_cursor();
    field.delete_before_cursor();
    assert_eq!(field.text(), "日x");
    assert_eq!(field.cursor(), 0);
}

#[test]
fn render_splits_the_text_at_the_caret() {
    let mut field = typed("hello");
    assert_eq!(field.render(), ("hello", ""));
    field.move_cursor(-2);
    assert_eq!(field.render(), ("hel", "lo"));
    field.move_cursor(-3);
    assert_eq!(field.render(), ("", "hello"));
    assert_eq!(BlankField::default().render(), ("", ""));
}

#[test]
fn into_text_hands_out_what_was_typed() {
    assert_eq!(typed("xyz").into_text(), "xyz");
    assert_eq!(BlankField::default().into_text(), "");
}

#[test]
fn the_active_field_is_drawn_with_the_caret_between_its_halves() {
    let mut field = typed("hello");
    field.move_cursor(-2);
    let spans = style_active_blank_field(&field);
    assert_eq!(spans.len(), 3);
    assert_eq!(spans[0].content, "hel");
    assert_eq!(spans[0].emphasis, Emphasis::Active);
    assert_eq!(spans[1].content, "|");
    assert_eq!(spans[1].emphasis, Emphasis::Caret);
    assert_eq!(spans[2].content, "lo");
    assert_eq!(spans[2].emphasis, Emphasis::Active);
}

#[test]
fn an_editing_intent_changes_the_field_and_it_goes_on_waiting() {
    let mut field = BlankField::default();
    assert_eq!(field.get_input(Intent::Insert('a')), Progress::Waiting);
    assert_eq!(field.get_input(Intent::Insert('b')), Progress::Waiting);
    assert_eq!(field.text(), "ab");
    assert_eq!(field.get_input(Intent::CursorLeft), Progress::Waiting);
    assert_eq!(field.cursor(), 1);
    assert_eq!(field.get_input(Intent::DeletePrev), Progress::Waiting);
    assert_eq!(field.text(), "b");
    assert_eq!(field.cursor(), 0);
    assert_eq!(field.get_input(Intent::CursorLeft), Progress::Waiting);
    assert_eq!(field.cursor(), 0);
    assert_eq!(field.get_input(Intent::CursorRight), Progress::Waiting);
    assert_eq!(field.cursor(), 1);
    assert_eq!(field.get_input(Intent::CursorRight), Progress::Waiting);
    assert_eq!(field.cursor(), 1);
}

#[test]
fn a_structural_intent_leaves_the_field_alone_and_is_passed_up() {
    let mut field = typed("ab");
    field.move_cursor(-1);
    assert_eq!(
        field.get_input(Intent::Confirm),
        Progress::Finished(ResultKind::Completed)
    );
    assert_eq!(
        field.get_input(Intent::Cancel),
        Progress::Finished(ResultKind::Canceled)
    );
    assert_eq!(
        field.get_input(Intent::NextUnit),
        Progress::Finished(ResultKind::NextBlock)
    );
    assert_eq!(
        field.get_input(Intent::PrevUnit),
        Progress::Finished(ResultKind::PrevBlock)
    );
    assert_eq!(field.text(), "ab");
    assert_eq!(field.cursor(), 1);
}

#[test]
fn a_single_field_session_ends_on_confirm_with_the_text() {
    let mut field = BlankField::default();
    assert_eq!(get_text_input(&mut field, Intent::Insert('h')), None);
    assert_eq!(get_text_input(&mut field, Intent::Insert('i')), None);
    assert_eq!(
        get_text_input(&mut field, Intent::Confirm),
        Some((ResultKind::Completed, "hi".to_owned()))
    );
}

#[test]
fn a_single_field_session_reports_a_cancel_as_completed_with_the_text() {
    let mut field = BlankField::default();
    assert_eq!(get_text_input(&mut field, Intent::Insert('h')), None);
    assert_eq!(
        get_text_input(&mut field, Intent::Cancel),
        Some((ResultKind::Completed, "h".to_owned()))
    );
    assert_eq!(field.text(), "h");
}

#[test]
fn a_single_field_session_goes_on_after_next_and_previous() {
    let mut field = BlankField::default();
    assert_eq!(get_text_input(&mut field, Intent::Insert('h')), None);
    assert_eq!(get_text_input(&mut field, Intent::NextUnit), None);
    assert_eq!(get_text_input(&mut field, Intent::PrevUnit), None);
    assert_eq!(get_text_input(&mut field, Intent::CursorLeft), None);
    assert_eq!(get_text_input(&mut field, Intent::DeletePrev), None);
    assert_eq!(field.text(), "h");
    assert_eq!(field.cursor(), 0);
    assert_eq!(
        get_text_input(&mut field, Intent::Confirm),
        Some((ResultKind::Completed, "h".to_owned()))
    );
}
