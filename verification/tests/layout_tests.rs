use text_editor::layout::{locate_cursor_glyph, CursorPlacement, CursorX, LayoutRunGlyphs};

fn run(line_i: usize, starts: &[usize]) -> LayoutRunGlyphs {
    LayoutRunGlyphs { line_i, glyph_starts: starts.to_vec() }
}

#[test]
fn no_run_on_line_leaves_cursor_at_origin() {
    let runs = vec![run(0, &[0, 1, 2])];
    assert_eq!(
        locate_cursor_glyph(&runs, 1, 0),
        CursorPlacement { x: CursorX::Origin, y_run: None }
    );
}

#[test]
fn cursor_at_glyph_start() {
    let runs = vec![run(0, &[0, 1, 2]), run(1, &[0, 2, 3])];
    assert_eq!(
        locate_cursor_glyph(&runs, 1, 2),
        CursorPlacement { x: CursorX::AtGlyph { run: 1, glyph: 1 }, y_run: Some(1) }
    );
}

#[test]
fn cursor_past_last_glyph_goes_after_it() {
    let runs = vec![run(0, &[0, 1, 2])];
    assert_eq!(
        locate_cursor_glyph(&runs, 0, 3),
        CursorPlacement { x: CursorX::AfterGlyph { run: 0, glyph: 2 }, y_run: Some(0) }
    );
}

#[test]
fn empty_run_keeps_origin_but_sets_row() {
    let runs = vec![run(0, &[]), run(1, &[])];
    assert_eq!(
        locate_cursor_glyph(&runs, 1, 0),
        CursorPlacement { x: CursorX::Origin, y_run: Some(1) }
    );
}

#[test]
fn wrapped_line_uses_later_run() {
    // Line 0 wraps into two runs: bytes 0..3 and 3..5.
    let runs = vec![run(0, &[0, 1, 2]), run(0, &[3, 4]), run(1, &[0])];
    assert_eq!(
        locate_cursor_glyph(&runs, 0, 4),
        CursorPlacement { x: CursorX::AtGlyph { run: 1, glyph: 1 }, y_run: Some(1) }
    );
    assert_eq!(
        locate_cursor_glyph(&runs, 0, 1),
        CursorPlacement { x: CursorX::AtGlyph { run: 0, glyph: 1 }, y_run: Some(1) }
    );
    assert_eq!(
        locate_cursor_glyph(&runs, 0, 5),
        CursorPlacement { x: CursorX::AfterGlyph { run: 1, glyph: 1 }, y_run: Some(1) }
    );
}

#[test]
fn later_hit_wins_over_earlier_hit() {
    let runs = vec![run(2, &[0, 1]), run(2, &[1])];
    assert_eq!(
        locate_cursor_glyph(&runs, 2, 1),
        CursorPlacement { x: CursorX::AtGlyph { run: 1, glyph: 0 }, y_run: Some(1) }
    );
}

#[test]
fn byte_before_last_glyph_without_hit_stays_at_origin() {
    let runs = vec![run(0, &[0, 4])];
    assert_eq!(
        locate_cursor_glyph(&runs, 0, 2),
        CursorPlacement { x: CursorX::Origin, y_run: Some(0) }
    );
}
