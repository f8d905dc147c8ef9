//! What each key event does to the editor, stated key by key over the text,
//! the cursor and the Control flag (the state `Editor::handle_key` leaves is
//! the one `key_event_spec` gives).

use vstd::prelude::*;

use crate::backspace::{ctrl_backspace_deletes_something, ctrl_backspace_target_spec};
use crate::editor::{key_event_fits, key_event_spec, EditKey, EditorView, KeyOutcome, KeyState};

verus! {

/// Pressing Backspace with the cursor after the start removes exactly the
/// chars between the new cursor and the old one, and nothing else: one char
/// when Control is not held, back to the word-wise target when it is. The
/// Control flag stays, and the text is reported changed.
pub proof fn backspace_removes_exactly_the_span(v: EditorView)
    requires
        0 < v.cursor <= v.text.len(),
    ensures
        ({
            let (w, r) = key_event_spec(v, EditKey::Backspace, KeyState::Pressed);
            &&& w.cursor < v.cursor
            &&& w.text == v.text.take(w.cursor as int) + v.text.skip(v.cursor as int)
            &&& w.control == v.control
            &&& v.control ==> w.cursor == ctrl_backspace_target_spec(v.text, v.cursor as int)
            &&& !v.control ==> w.cursor + 1 == v.cursor
            &&& r == KeyOutcome::TextChanged
        }),
{
    ctrl_backspace_deletes_something(v.text, v.cursor as int);
    let w = key_event_spec(v, EditKey::Backspace, KeyState::Pressed).0;
    assert(w.text =~= v.text.take(w.cursor as int) + v.text.skip(v.cursor as int));
}

/// Pressing Backspace with the cursor at the start changes nothing.
pub proof fn backspace_at_start_does_nothing(v: EditorView)
    requires
        v.cursor == 0,
    ensures
        key_event_spec(v, EditKey::Backspace, KeyState::Pressed) == (v, KeyOutcome::Nothing),
{
}

/// Pressing Control sets the Control flag, whatever it was (a held key
/// repeats its press), and leaves the text and the cursor.
pub proof fn control_press_sets_flag(v: EditorView)
    ensures
        ({
            let (w, r) = key_event_spec(v, EditKey::Control, KeyState::Pressed);
            &&& w.control
            &&& w.text == v.text
            &&& w.cursor == v.cursor
            &&& r == KeyOutcome::Nothing
        }),
{
}

/// Releasing Control clears the Control flag, whatever it was, and leaves the
/// text and the cursor.
pub proof fn control_release_clears_flag(v: EditorView)
    ensures
        ({
            let (w, r) = key_event_spec(v, EditKey::Control, KeyState::Released);
            &&& !w.control
            &&& w.text == v.text
            &&& w.cursor == v.cursor
            &&& r == KeyOutcome::Nothing
        }),
{
}

/// Releasing any key but Control changes nothing: a key acts once, when it
/// goes down.
pub proof fn release_of_other_keys_does_nothing(v: EditorView, key: EditKey)
    requires
        !(key is Control),
    ensures
        key_event_spec(v, key, KeyState::Released) == (v, KeyOutcome::Nothing),
{
}

/// Pressing a key that types puts its text in at the cursor, keeping
/// everything before and after the cursor, and moves the cursor on by one.
/// Space types a space, Enter a line feed, Tab a tab, a character key its
/// text.
pub proof fn typing_inserts_at_cursor(v: EditorView, key: EditKey)
    requires
        v.cursor <= v.text.len(),
        key_event_fits(v, key),
    ensures
        ({
            let (w, r) = key_event_spec(v, key, KeyState::Pressed);
            let before = v.text.take(v.cursor as int);
            let after = v.text.skip(v.cursor as int);
            &&& key matches EditKey::Character(s) ==> w.text == before + s@ + after
            &&& key is Space ==> w.text == before + seq![' '] + after
            &&& key is Enter ==> w.text == before + seq!['\n'] + after
            &&& key is Tab ==> w.text == before + seq!['\t'] + after
            &&& (key is Character || key is Space || key is Enter || key is Tab) ==> {
                &&& w.cursor == v.cursor + 1
                &&& w.control == v.control
                &&& r == KeyOutcome::TextChanged
            }
        }),
{
}

/// Arrow Left moves the cursor back by one char and asks for a redraw; at
/// the start it does nothing. The text and the Control flag stay.
pub proof fn arrow_left_moves_back_one(v: EditorView)
    ensures
        ({
            let (w, r) = key_event_spec(v, EditKey::ArrowLeft, KeyState::Pressed);
            &&& w.text == v.text
            &&& w.control == v.control
            &&& v.cursor > 0 ==> w.cursor + 1 == v.cursor && r == KeyOutcome::Redraw
            &&& v.cursor == 0 ==> w.cursor == 0 && r == KeyOutcome::Nothing
        }),
{
}

/// Arrow Right moves the cursor on by one char, but not past the end of the
/// text, and asks for a redraw. The text and the Control flag stay.
pub proof fn arrow_right_moves_on_one(v: EditorView)
    requires
        v.cursor <= v.text.len(),
    ensures
        ({
            let (w, r) = key_event_spec(v, EditKey::ArrowRight, KeyState::Pressed);
            &&& w.text == v.text
            &&& w.control == v.control
            &&& v.cursor < v.text.len() ==> w.cursor == v.cursor + 1
            &&& v.cursor == v.text.len() ==> w.cursor == v.cursor
            &&& r == KeyOutcome::Redraw
        }),
{
}

/// Pressing a key the editor does not use changes nothing.
pub proof fn other_key_does_nothing(v: EditorView)
    ensures
        key_event_spec(v, EditKey::Other, KeyState::Pressed) == (v, KeyOutcome::Nothing),
{
}

} // verus!
