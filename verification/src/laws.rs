//! What holds across the editor's operations.

use vstd::prelude::*;

use crate::editor::{
    key_event_fits, key_text, key_types_text, press_spec, release_spec, EditKey, EditorView,
    KeyOutcome,
};
use crate::layout::{
    glyph_hit, placement_x_spec, placement_y_spec, run_on_line, CursorX, LayoutRunGlyphs,
};

verus! {

/// Typing a key that types one char and then pressing Backspace (Control not
/// held) gives back the text and the cursor as they were.
pub proof fn type_then_backspace_restores(v: EditorView, key: EditKey)
    requires
        v.cursor <= v.text.len(),
        !v.control,
        key_types_text(key),
        key_text(key).len() == 1,
        key_event_fits(v, key),
    ensures
        press_spec(press_spec(v, key).0, EditKey::Backspace).0 == v,
{
    let v1 = press_spec(v, key).0;
    let v2 = press_spec(v1, EditKey::Backspace).0;
    assert(v2.text =~= v.text);
}

/// Arrow Left then Arrow Right brings the cursor back, unless it started at
/// the start of the text.
pub proof fn left_then_right_restores(v: EditorView)
    requires
        0 < v.cursor <= v.text.len(),
    ensures
        press_spec(press_spec(v, EditKey::ArrowLeft).0, EditKey::ArrowRight).0 == v,
{
}

/// Arrow Right then Arrow Left brings the cursor back, unless it started at
/// the end of the text.
pub proof fn right_then_left_restores(v: EditorView)
    requires
        v.cursor < v.text.len(),
    ensures
        press_spec(press_spec(v, EditKey::ArrowRight).0, EditKey::ArrowLeft).0 == v,
{
}

/// Keys that do not type and are not Backspace leave the text as it is; the
/// arrows ask only for a redraw.
pub proof fn moves_keep_text(v: EditorView, key: EditKey)
    requires
        !key_types_text(key),
        key != EditKey::Backspace,
    ensures
        press_spec(v, key).0.text == v.text,
        release_spec(v, key).0.text == v.text,
        press_spec(v, key).1 != KeyOutcome::TextChanged,
{
}

/// Every key that changes the text answers `TextChanged`, and every key that
/// answers `TextChanged` changed the text or moved the cursor.
pub proof fn text_change_is_reported(v: EditorView, key: EditKey)
    requires
        v.cursor <= v.text.len(),
        key_event_fits(v, key),
    ensures
        press_spec(v, key).0.text != v.text ==> press_spec(v, key).1 == KeyOutcome::TextChanged,
        press_spec(v, key).1 == KeyOutcome::TextChanged ==> press_spec(v, key).0.cursor
            != v.cursor || press_spec(v, key).0.text != v.text,
{
    crate::backspace::ctrl_backspace_deletes_something(v.text, v.cursor as int);
    let w = press_spec(v, key).0;
    if key_types_text(key) {
        assert(w.cursor == v.cursor + 1);
    }
}

/// Pressing Control and releasing it again gives back the state as it was
/// when Control was not held.
pub proof fn control_press_release_restores(v: EditorView)
    requires
        !v.control,
    ensures
        release_spec(press_spec(v, EditKey::Control).0, EditKey::Control).0 == v,
        press_spec(v, EditKey::Control).0.control,
{
}

/// The placement across is determined: at most one value meets its
/// description.
pub proof fn placement_x_unique(
    runs: Seq<LayoutRunGlyphs>,
    line: usize,
    byte: usize,
    a: CursorX,
    b: CursorX,
)
    requires
        placement_x_spec(runs, line, byte, a),
        placement_x_spec(runs, line, byte, b),
    ensures
        a == b,
{
    match (a, b) {
        (CursorX::AtGlyph { run: r1, glyph: g1 }, CursorX::AtGlyph { run: r2, glyph: g2 }) => {
            assert(glyph_hit(runs, line, byte, r1 as int, g1 as int));
            assert(glyph_hit(runs, line, byte, r2 as int, g2 as int));
        },
        (CursorX::AtGlyph { run: r1, glyph: g1 }, _) => {
            assert(glyph_hit(runs, line, byte, r1 as int, g1 as int));
        },
        (_, CursorX::AtGlyph { run: r2, glyph: g2 }) => {
            assert(glyph_hit(runs, line, byte, r2 as int, g2 as int));
        },
        (
            CursorX::AfterGlyph { run: r1, glyph: g1 },
            CursorX::AfterGlyph { run: r2, glyph: g2 },
        ) => {
            assert(crate::layout::run_tail(runs, line, byte, r1 as int));
            assert(crate::layout::run_tail(runs, line, byte, r2 as int));
        },
        (CursorX::AfterGlyph { run: r1, glyph: g1 }, _) => {
            assert(crate::layout::run_tail(runs, line, byte, r1 as int));
        },
        (_, CursorX::AfterGlyph { run: r2, glyph: g2 }) => {
            assert(crate::layout::run_tail(runs, line, byte, r2 as int));
        },
        _ => {},
    }
}

/// The row is determined: at most one value meets its description.
pub proof fn placement_y_unique(
    runs: Seq<LayoutRunGlyphs>,
    line: usize,
    a: Option<usize>,
    b: Option<usize>,
)
    requires
        placement_y_spec(runs, line, a),
        placement_y_spec(runs, line, b),
    ensures
        a == b,
{
    match (a, b) {
        (Some(r1), Some(r2)) => {
            assert(run_on_line(runs, line, r1 as int));
            assert(run_on_line(runs, line, r2 as int));
        },
        (Some(r1), None) => {
            assert(run_on_line(runs, line, r1 as int));
        },
        (None, Some(r2)) => {
            assert(run_on_line(runs, line, r2 as int));
        },
        _ => {},
    }
}

/// When some glyph of the cursor's line starts at the cursor's byte offset,
/// the cursor is drawn at the left of a glyph that starts there.
pub proof fn placed_at_matching_glyph(
    runs: Seq<LayoutRunGlyphs>,
    line: usize,
    byte: usize,
    x: CursorX,
    r: int,
    g: int,
)
    requires
        placement_x_spec(runs, line, byte, x),
        glyph_hit(runs, line, byte, r, g),
    ensures
        x matches CursorX::AtGlyph { run, glyph } && runs[run as int].glyph_starts@[glyph as int]
            == byte,
{
}

} // verus!
