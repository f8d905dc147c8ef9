use text_editor::backspace::backspace_scan_step;
use text_editor::backspace::BackspaceScan::{Leading, Symbols, Word};
use text_editor::editor::{generate_big_text_file, EditKey, Editor, KeyOutcome, KeyState};

fn press(e: &mut Editor, key: EditKey) -> KeyOutcome {
    e.handle_key(&key, KeyState::Pressed)
}

fn release(e: &mut Editor, key: EditKey) -> KeyOutcome {
    e.handle_key(&key, KeyState::Released)
}

/// An editor holding `text`, with the cursor at its end.
fn editor_with(text: &str) -> Editor {
    let mut e = Editor::new();
    while e.cursor() > 0 {
        press(&mut e, EditKey::Backspace);
    }
    assert_eq!(e.len_chars(), 0);
    for c in text.chars() {
        let key = match c {
            ' ' => EditKey::Space,
            '\n' => EditKey::Enter,
            '\t' => EditKey::Tab,
            other => EditKey::Character(other.to_string()),
        };
        press(&mut e, key);
    }
    e
}

#[test]
fn start_text_is_the_greeting() {
    assert_eq!(generate_big_text_file(), "Hello Fucker!");
}

#[test]
fn new_editor_has_cursor_at_end() {
    let e = Editor::new();
    assert_eq!(e.text_string(), "Hello Fucker!");
    assert_eq!(e.len_chars(), 13);
    assert_eq!(e.cursor(), 13);
    assert!(!e.control());
}

#[test]
fn typing_inserts_at_cursor_and_moves_on() {
    let mut e = editor_with("ac");
    press(&mut e, EditKey::ArrowLeft);
    assert_eq!(press(&mut e, EditKey::Character("b".to_string())), KeyOutcome::TextChanged);
    assert_eq!(e.text_string(), "abc");
    assert_eq!(e.cursor(), 2);
}

#[test]
fn space_enter_tab_type_their_chars() {
    let mut e = editor_with("");
    assert_eq!(press(&mut e, EditKey::Space), KeyOutcome::TextChanged);
    assert_eq!(press(&mut e, EditKey::Enter), KeyOutcome::TextChanged);
    assert_eq!(press(&mut e, EditKey::Tab), KeyOutcome::TextChanged);
    assert_eq!(e.text_string(), " \n\t");
    assert_eq!(e.cursor(), 3);
}

#[test]
fn multi_char_text_moves_cursor_by_one() {
    let mut e = editor_with("xy");
    press(&mut e, EditKey::ArrowLeft);
    press(&mut e, EditKey::Character("ab".to_string()));
    assert_eq!(e.text_string(), "xaby");
    assert_eq!(e.cursor(), 2);
}

#[test]
fn backspace_at_start_does_nothing() {
    let mut e = editor_with("ab");
    press(&mut e, EditKey::ArrowLeft);
    press(&mut e, EditKey::ArrowLeft);
    assert_eq!(press(&mut e, EditKey::Backspace), KeyOutcome::Nothing);
    assert_eq!(e.text_string(), "ab");
    assert_eq!(e.cursor(), 0);
}

#[test]
fn backspace_deletes_one_char_before_cursor() {
    let mut e = editor_with("héllo");
    press(&mut e, EditKey::ArrowLeft);
    press(&mut e, EditKey::ArrowLeft);
    press(&mut e, EditKey::ArrowLeft);
    assert_eq!(press(&mut e, EditKey::Backspace), KeyOutcome::TextChanged);
    assert_eq!(e.text_string(), "hllo");
    assert_eq!(e.cursor(), 1);
}

#[test]
fn ctrl_backspace_deletes_space_and_word() {
    let mut e = editor_with("hello world  ");
    press(&mut e, EditKey::Control);
    assert!(e.control());
    assert_eq!(press(&mut e, EditKey::Backspace), KeyOutcome::TextChanged);
    assert_eq!(e.text_string(), "hello ");
    assert_eq!(e.cursor(), 6);
    release(&mut e, EditKey::Control);
    assert!(!e.control());
    press(&mut e, EditKey::Backspace);
    assert_eq!(e.text_string(), "hello");
}

#[test]
fn ctrl_backspace_deletes_a_run_of_symbols() {
    let mut e = editor_with("foo.bar!!");
    press(&mut e, EditKey::Control);
    press(&mut e, EditKey::Backspace);
    assert_eq!(e.text_string(), "foo.bar");
    press(&mut e, EditKey::Backspace);
    assert_eq!(e.text_string(), "foo.");
    press(&mut e, EditKey::Backspace);
    assert_eq!(e.text_string(), "foo");
    press(&mut e, EditKey::Backspace);
    assert_eq!(e.text_string(), "");
    assert_eq!(e.cursor(), 0);
}

#[test]
fn ctrl_backspace_over_only_space_clears_to_start() {
    let mut e = editor_with("   ");
    press(&mut e, EditKey::Control);
    press(&mut e, EditKey::Backspace);
    assert_eq!(e.text_string(), "");
}

#[test]
fn ctrl_backspace_target_on_ropes() {
    let rope = ropey::Rope::from_str("héllo wörld \t");
    assert_eq!(Editor::calculate_ctrl_backspace_target(&rope, 13), 6);
    assert_eq!(Editor::calculate_ctrl_backspace_target(&rope, 11), 6);
    assert_eq!(Editor::calculate_ctrl_backspace_target(&rope, 6), 0);
    assert_eq!(Editor::calculate_ctrl_backspace_target(&rope, 3), 0);
    assert_eq!(Editor::calculate_ctrl_backspace_target(&rope, 0), 0);
    let rope = ropey::Rope::from_str("a+=b");
    assert_eq!(Editor::calculate_ctrl_backspace_target(&rope, 3), 1);
    assert_eq!(Editor::calculate_ctrl_backspace_target(&rope, 1), 0);
    let rope = ropey::Rope::from_str("x ٣٤");
    assert_eq!(Editor::calculate_ctrl_backspace_target(&rope, 4), 2);
}

#[test]
fn backspace_scan_step_table() {
    assert_eq!(backspace_scan_step(Leading, true, false), Some(Leading));
    assert_eq!(backspace_scan_step(Leading, false, true), Some(Word));
    assert_eq!(backspace_scan_step(Leading, false, false), Some(Symbols));
    assert_eq!(backspace_scan_step(Word, false, true), Some(Word));
    assert_eq!(backspace_scan_step(Word, true, false), None);
    assert_eq!(backspace_scan_step(Word, false, false), None);
    assert_eq!(backspace_scan_step(Symbols, false, false), Some(Symbols));
    assert_eq!(backspace_scan_step(Symbols, false, true), None);
    assert_eq!(backspace_scan_step(Symbols, true, false), None);
}

#[test]
fn arrows_move_within_text() {
    let mut e = editor_with("ab");
    assert_eq!(press(&mut e, EditKey::ArrowRight), KeyOutcome::Redraw);
    assert_eq!(e.cursor(), 2);
    assert_eq!(press(&mut e, EditKey::ArrowLeft), KeyOutcome::Redraw);
    assert_eq!(e.cursor(), 1);
    press(&mut e, EditKey::ArrowLeft);
    assert_eq!(press(&mut e, EditKey::ArrowLeft), KeyOutcome::Nothing);
    assert_eq!(e.cursor(), 0);
    assert_eq!(e.text_string(), "ab");
}

#[test]
fn other_keys_and_releases_do_nothing() {
    let mut e = editor_with("ab");
    assert_eq!(press(&mut e, EditKey::Other), KeyOutcome::Nothing);
    assert_eq!(release(&mut e, EditKey::Character("x".to_string())), KeyOutcome::Nothing);
    assert_eq!(release(&mut e, EditKey::Backspace), KeyOutcome::Nothing);
    assert_eq!(e.text_string(), "ab");
    assert_eq!(e.cursor(), 2);
    assert_eq!(press(&mut e, EditKey::Control), KeyOutcome::Nothing);
}

#[test]
fn set_text_puts_text_in_front() {
    let mut e = Editor::new();
    e.set_text("Say: ".to_string());
    assert_eq!(e.text_string(), "Say: Hello Fucker!");
    assert_eq!(e.cursor(), 13);
}

#[test]
fn cursor_line_and_byte_offsets() {
    let e = editor_with("ab\ncd");
    assert_eq!(e.cursor_line_and_byte(), (1, 2));
    let mut e = editor_with("é\nxé");
    assert_eq!(e.cursor_line_and_byte(), (1, 3));
    press(&mut e, EditKey::ArrowLeft);
    assert_eq!(e.cursor_line_and_byte(), (1, 1));
    press(&mut e, EditKey::ArrowLeft);
    assert_eq!(e.cursor_line_and_byte(), (1, 0));
    press(&mut e, EditKey::ArrowLeft);
    assert_eq!(e.cursor_line_and_byte(), (0, 2));
    press(&mut e, EditKey::ArrowLeft);
    assert_eq!(e.cursor_line_and_byte(), (0, 0));
}

#[test]
fn law_type_then_backspace_restores() {
    let mut e = editor_with("héllo");
    press(&mut e, EditKey::ArrowLeft);
    press(&mut e, EditKey::Character("ü".to_string()));
    press(&mut e, EditKey::Backspace);
    assert_eq!(e.text_string(), "héllo");
    assert_eq!(e.cursor(), 4);
}

#[test]
fn law_left_right_restore() {
    let mut e = editor_with("abc");
    press(&mut e, EditKey::ArrowLeft);
    press(&mut e, EditKey::ArrowLeft);
    press(&mut e, EditKey::ArrowRight);
    assert_eq!(e.cursor(), 2);
    press(&mut e, EditKey::ArrowRight);
    press(&mut e, EditKey::ArrowLeft);
    assert_eq!(e.cursor(), 2);
    assert_eq!(e.text_string(), "abc");
}

#[test]
fn law_control_press_release_restores() {
    let mut e = editor_with("a");
    press(&mut e, EditKey::Control);
    release(&mut e, EditKey::Control);
    assert!(!e.control());
    assert_eq!(e.text_string(), "a");
    assert_eq!(e.cursor(), 1);
}

#[test]
fn empty_text_before_end_moves_cursor_only() {
    let mut e = editor_with("ab");
    press(&mut e, EditKey::ArrowLeft);
    assert_eq!(press(&mut e, EditKey::Character(String::new())), KeyOutcome::TextChanged);
    assert_eq!(e.text_string(), "ab");
    assert_eq!(e.cursor(), 2);
}

#[test]
fn cursor_lines_follow_unicode_breaks() {
    // CR LF ends one line; VT, FF, NEL, LS and PS each end a line.
    let mut e = editor_with("a\r\nb\u{0B}c\u{85}d\u{2028}é");
    assert_eq!(e.cursor_line_and_byte(), (4, 2));
    for _ in 0..8 {
        press(&mut e, EditKey::ArrowLeft);
    }
    // The cursor now stands between the CR and the LF.
    assert_eq!(e.cursor(), 2);
    assert_eq!(e.cursor_line_and_byte(), (0, 2));
    press(&mut e, EditKey::ArrowRight);
    assert_eq!(e.cursor_line_and_byte(), (1, 0));
    let mut e = editor_with("x\r");
    assert_eq!(e.cursor_line_and_byte(), (1, 0));
    press(&mut e, EditKey::ArrowLeft);
    assert_eq!(e.cursor_line_and_byte(), (0, 1));
}

#[test]
fn rope_char_count_counts_chars() {
    let rope = ropey::Rope::from_str("héllo\n");
    assert_eq!(text_editor::rope_text::rope_char_count(&rope), 6);
}

#[test]
fn law_ctrl_backspace_target_monotonic() {
    let rope = ropey::Rope::from_str("ab cd  ");
    let targets: Vec<usize> =
        (0..=7).map(|p| Editor::calculate_ctrl_backspace_target(&rope, p)).collect();
    assert_eq!(targets, vec![0, 0, 0, 0, 3, 3, 3, 3]);
}
