use shilpo_m3e::sensitive_input::{EditOutcome, SensitiveInputEvent, SensitiveInputState};

fn typed(text: &str) -> SensitiveInputState {
    let mut state = SensitiveInputState::new().masked(false);
    assert_eq!(state.paste(text), EditOutcome::Changed);
    state
}

fn shown(state: &SensitiveInputState) -> String {
    state.display_text()
}

#[test]
fn new_input_is_empty_masked_and_valid() {
    let state = SensitiveInputState::new();
    assert!(state.is_empty());
    assert!(state.is_masked());
    assert_eq!(state.selection(), 0..0);
    assert_eq!(state.marked_text_range(), None);
    assert!(state.ranges_valid());
    assert_eq!(shown(&state), "");
    let state = state.placeholder("Password".to_string());
    assert_eq!(shown(&state), "Password");
}

#[test]
fn typing_places_cursor_after_text() {
    let mut state = typed("abc");
    assert_eq!(shown(&state), "abc");
    assert_eq!(state.selection(), 3..3);
    assert_eq!(state.cursor_offset(), 3);
    state.home();
    assert_eq!(state.paste("x"), EditOutcome::Changed);
    assert_eq!(shown(&state), "xabc");
    assert_eq!(state.selection(), 1..1);
    assert!(state.ranges_valid());
}

#[test]
fn pasted_line_breaks_become_spaces() {
    let state = typed("a\r\nb\nc\rd");
    assert_eq!(shown(&state), "a  b c d");
}

#[test]
fn masked_value_shows_one_bullet_per_grapheme() {
    let mut state = SensitiveInputState::new();
    state.paste("ae\u{301}🙂");
    assert_eq!(shown(&state), "•••");
    // The cursor after "a" sits after the first bullet.
    assert_eq!(state.display_offset(1), 3);
    assert_eq!(state.display_offset(0), 0);
    state.set_masked(false);
    assert_eq!(state.display_offset(1), 1);
    assert_eq!(shown(&state), "ae\u{301}🙂");
}

#[test]
fn backspace_removes_whole_grapheme() {
    let mut state = typed("ae\u{301}");
    assert_eq!(state.backspace(), EditOutcome::Changed);
    assert_eq!(shown(&state), "a");
    assert_eq!(state.selection(), 1..1);
    assert_eq!(state.backspace(), EditOutcome::Changed);
    assert!(state.is_empty());
    assert_eq!(state.backspace(), EditOutcome::Bell);
}

#[test]
fn delete_removes_grapheme_after_cursor() {
    let mut state = typed("🙂x");
    state.home();
    assert_eq!(state.delete(), EditOutcome::Changed);
    assert_eq!(shown(&state), "x");
    state.end();
    assert_eq!(state.delete(), EditOutcome::Bell);
    assert_eq!(shown(&state), "x");
}

#[test]
fn arrows_move_by_grapheme_and_collapse_selection() {
    let mut state = typed("é🙂z");
    state.home();
    state.right();
    assert_eq!(state.selection(), 2..2);
    state.right();
    assert_eq!(state.selection(), 6..6);
    state.left();
    assert_eq!(state.selection(), 2..2);
    state.select_right();
    assert_eq!(state.selection(), 2..6);
    state.left();
    assert_eq!(state.selection(), 2..2);
    state.select_all();
    assert_eq!(state.selection(), 0..7);
    state.right();
    assert_eq!(state.selection(), 7..7);
    state.left();
    state.left();
    state.left();
    state.left();
    assert_eq!(state.selection(), 0..0);
}

#[test]
fn selecting_left_past_anchor_reverses_selection() {
    let mut state = typed("abcd");
    state.home();
    state.right();
    state.right();
    state.select_right();
    assert_eq!(state.selected_text_range(), (2..3, false));
    state.select_left();
    state.select_left();
    assert_eq!(state.selected_text_range(), (1..2, true));
    assert_eq!(state.cursor_offset(), 1);
    assert_eq!(state.backspace(), EditOutcome::Changed);
    assert_eq!(shown(&state), "acd");
}

#[test]
fn selection_is_replaced_by_typing() {
    let mut state = typed("hello world");
    state.select_all();
    state.paste("hi");
    assert_eq!(shown(&state), "hi");
    assert_eq!(state.selection(), 2..2);
}

#[test]
fn utf16_offsets_convert_both_ways() {
    let state = typed("a🙂é");
    // 'a' is 1 unit, the emoji 2 units, 'é' 1 unit; bytes 1, 4, 2.
    assert_eq!(state.offset_to_utf16(0), 0);
    assert_eq!(state.offset_to_utf16(1), 1);
    assert_eq!(state.offset_to_utf16(5), 3);
    assert_eq!(state.offset_to_utf16(7), 4);
    assert_eq!(state.offset_from_utf16(3), 5);
    assert_eq!(state.offset_from_utf16(4), 7);
    // Offsets beyond the text clamp to its end.
    assert_eq!(state.offset_from_utf16(99), 7);
    assert_eq!(state.range_to_utf16(&(1..5)), 1..3);
    assert_eq!(state.range_from_utf16(&(1..3)), 1..5);
    let (text, adjusted) = state.text_for_range(1..3);
    assert_eq!(text, "🙂");
    assert_eq!(adjusted, 1..3);
}

#[test]
fn replace_text_in_utf16_range() {
    let mut state = typed("a🙂b");
    assert_eq!(
        state.replace_text_in_range(Some(1..3), "xy"),
        EditOutcome::Changed
    );
    assert_eq!(shown(&state), "axyb");
    assert_eq!(state.selection(), 3..3);
}

#[test]
fn composition_marks_and_unmarks_text() {
    let mut state = typed("ab");
    assert_eq!(
        state.replace_and_mark_text_in_range(None, "xy", Some(1..1)),
        EditOutcome::Changed
    );
    assert_eq!(shown(&state), "abxy");
    assert_eq!(state.marked_text_range(), Some(2..4));
    // The new selection is converted against the whole value and offset by
    // the start of the replaced range.
    assert_eq!(state.selection(), 3..3);
    // Committing the composition replaces the marked text.
    assert_eq!(state.replace_text_in_range(None, "漢"), EditOutcome::Changed);
    assert_eq!(shown(&state), "ab漢");
    assert_eq!(state.marked_text_range(), None);
    assert_eq!(state.selection(), 5..5);
    state.replace_and_mark_text_in_range(None, "x", None);
    assert_eq!(state.marked_text_range(), Some(3..4));
    state.unmark_text();
    assert_eq!(state.marked_text_range(), None);
    assert_eq!(shown(&state), "ab漢x");
}

#[test]
fn disabled_input_ignores_edits() {
    let mut state = typed("keep");
    state.set_disabled(true);
    assert_eq!(state.paste("more"), EditOutcome::Ignored);
    assert_eq!(state.replace_text_in_range(None, "z"), EditOutcome::Ignored);
    assert_eq!(shown(&state), "keep");
}

#[test]
fn enter_submits_and_escape_cancels() {
    let mut state = typed("secret");
    assert_eq!(state.enter(true), Some(SensitiveInputEvent::Submit));
    assert_eq!(state.enter(false), None);
    let value = state.take();
    assert_eq!(value.expose(), "secret");
    assert!(state.is_empty());
    assert_eq!(state.selection(), 0..0);
    state.paste("again");
    assert_eq!(state.escape(), SensitiveInputEvent::Cancel);
    assert!(state.is_empty());
    state.paste("once more");
    assert_eq!(state.cancel(), SensitiveInputEvent::Cancel);
    assert!(state.is_empty());
}

#[test]
fn clear_keeps_settings() {
    let mut state = SensitiveInputState::new()
        .placeholder("PIN".to_string())
        .masked(true);
    state.paste("1234");
    state.clear();
    assert!(state.is_empty());
    assert!(state.is_masked());
    assert_eq!(shown(&state), "PIN");
    state.set_placeholder("Code".to_string());
    assert_eq!(shown(&state), "Code");
}

#[test]
fn mouse_down_moves_cursor_to_end() {
    let mut state = typed("xyz");
    state.home();
    state.mouse_down();
    assert_eq!(state.selection(), 3..3);
}
