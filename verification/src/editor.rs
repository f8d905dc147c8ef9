//! The editor: a text held in a rope, a cursor given as a char index into
//! it, and whether Control is held down. Key presses edit the text and move
//! the cursor; each press is answered with what the window must do next.

use vstd::prelude::*;
use vstd::utf8::encode_utf8;

use crate::backspace::{
    backspace_scan_step, ctrl_backspace_target_spec, scan_back, BackspaceScan,
};
use crate::chars::{char_is_alphanumeric, char_is_whitespace};
use crate::rope_text::{
    cut_out, lemma_line_start_at_most, lemma_lines_ended_monotonic, lemma_utf8_prefix_split,
    line_start_char, lines_ended_before, rope_char, rope_char_to_byte, rope_char_to_line,
    rope_chars, rope_insert, rope_len_chars, rope_line_to_byte, rope_new, rope_remove,
    rope_to_string, spliced_in,
};

verus! {

/// The text the editor starts with.
pub open spec fn start_text() -> Seq<char> {
    seq!['H', 'e', 'l', 'l', 'o', ' ', 'F', 'u', 'c', 'k', 'e', 'r', '!']
}

/// Builds the text the editor starts with.
pub fn generate_big_text_file() -> (text: String)
    ensures
        text@ == start_text(),
{
    let mut text = String::new();
    text.append("Hello Fucker!");
    proof {
        reveal_strlit("Hello Fucker!");
    }
    text
}

/// A key as the editor tells keys apart.
#[derive(Debug)]
pub enum EditKey {
    /// A key that types the given text.
    Character(String),
    Space,
    Backspace,
    Enter,
    ArrowLeft,
    ArrowRight,
    Control,
    Tab,
    /// Any other key: the editor ignores it.
    Other,
}

/// Whether a key went down or came up.
#[derive(Clone, Copy, Debug, PartialEq, Eq, Structural)]
pub enum KeyState {
    Pressed,
    Released,
}

/// What the window has to do after a key event.
#[derive(Clone, Copy, Debug, PartialEq, Eq, Structural)]
pub enum KeyOutcome {
    /// Nothing.
    Nothing,
    /// Draw again (the cursor moved).
    Redraw,
    /// Lay the text out again and draw again (the text changed).
    TextChanged,
}

/// The editor's state as plain values.
pub struct EditorView {
    pub text: Seq<char>,
    pub cursor: nat,
    pub control: bool,
}

/// The editor.
pub struct Editor {
    text: ropey::Rope,
    cursor: usize,
    control: bool,
}

impl View for Editor {
    type V = EditorView;

    closed spec fn view(&self) -> EditorView {
        EditorView { text: rope_chars(self.text), cursor: self.cursor as nat, control: self.control }
    }
}

/// The text that a key types, if it types any.
pub open spec fn key_text(key: EditKey) -> Seq<char> {
    match key {
        EditKey::Character(s) => s@,
        EditKey::Space => seq![' '],
        EditKey::Enter => seq!['\n'],
        EditKey::Tab => seq!['\t'],
        _ => Seq::empty(),
    }
}

/// Whether a key types text.
pub open spec fn key_types_text(key: EditKey) -> bool {
    match key {
        EditKey::Character(_) | EditKey::Space | EditKey::Enter | EditKey::Tab => true,
        _ => false,
    }
}

/// The state after typing `ins` at the cursor: the cursor moves on by one.
pub open spec fn typed(v: EditorView, ins: Seq<char>) -> EditorView {
    EditorView {
        text: spliced_in(v.text, v.cursor as int, ins),
        cursor: v.cursor + 1,
        control: v.control,
    }
}

/// Where Backspace deletes back to: one char, or, with Control held, the
/// word-wise target.
pub open spec fn backspace_target(v: EditorView) -> int {
    if v.control {
        ctrl_backspace_target_spec(v.text, v.cursor as int)
    } else {
        v.cursor - 1
    }
}

/// What a key press does.
pub open spec fn press_spec(v: EditorView, key: EditKey) -> (EditorView, KeyOutcome) {
    match key {
        EditKey::Backspace => {
            if v.cursor == 0 {
                (v, KeyOutcome::Nothing)
            } else {
                let t = backspace_target(v);
                (
                    EditorView {
                        text: cut_out(v.text, t, v.cursor as int),
                        cursor: t as nat,
                        control: v.control,
                    },
                    KeyOutcome::TextChanged,
                )
            }
        },
        EditKey::ArrowLeft => {
            if v.cursor == 0 {
                (v, KeyOutcome::Nothing)
            } else {
                (EditorView { cursor: (v.cursor - 1) as nat, ..v }, KeyOutcome::Redraw)
            }
        },
        EditKey::ArrowRight => {
            let moved = if v.cursor + 1 > v.text.len() {
                v.text.len()
            } else {
                v.cursor + 1
            };
            (EditorView { cursor: moved, ..v }, KeyOutcome::Redraw)
        },
        EditKey::Control => (EditorView { control: true, ..v }, KeyOutcome::Nothing),
        EditKey::Other => (v, KeyOutcome::Nothing),
        _ => (typed(v, key_text(key)), KeyOutcome::TextChanged),
    }
}

/// What a key release does: releasing Control clears the flag.
pub open spec fn release_spec(v: EditorView, key: EditKey) -> (EditorView, KeyOutcome) {
    match key {
        EditKey::Control => (EditorView { control: false, ..v }, KeyOutcome::Nothing),
        _ => (v, KeyOutcome::Nothing),
    }
}

/// What a key event does.
pub open spec fn key_event_spec(v: EditorView, key: EditKey, state: KeyState) -> (
    EditorView,
    KeyOutcome,
) {
    match state {
        KeyState::Pressed => press_spec(v, key),
        KeyState::Released => release_spec(v, key),
    }
}

/// A key event that the editor can take: an empty typed text comes only
/// with the cursor before the end of the text (typing moves the cursor on by
/// one, which at the end would take it past the end), and the text stays
/// short of the machine's limit.
pub open spec fn key_event_fits(v: EditorView, key: EditKey) -> bool {
    &&& key matches EditKey::Character(s) ==> s@.len() > 0 || v.cursor < v.text.len()
    &&& v.text.len() + key_text(key).len() < usize::MAX
}

impl Editor {
    /// The cursor lies within the text (at most at its end).
    pub open spec fn wf(&self) -> bool {
        self@.cursor <= self@.text.len()
    }

    /// An editor holding the start text, with the cursor at its end and
    /// Control not held.
    pub fn new() -> (e: Editor)
        ensures
            e.wf(),
            e@.text == start_text(),
            e@.cursor == start_text().len(),
            !e@.control,
    {
        let mut text = rope_new();
        let start = generate_big_text_file();
        rope_insert(&mut text, 0, start.as_str());
        let cursor = rope_len_chars(&text);
        proof {
            assert(spliced_in(Seq::<char>::empty(), 0, start_text()) =~= start_text());
        }
        Editor { text, cursor, control: false }
    }

    /// Puts `text` in at the start of the editor's text; the cursor keeps
    /// its index.
    pub fn set_text(&mut self, text: String)
        requires
            old(self).wf(),
        ensures
            final(self).wf(),
            final(self)@.text == text@ + old(self)@.text,
            final(self)@.cursor == old(self)@.cursor,
            final(self)@.control == old(self)@.control,
    {
        rope_insert(&mut self.text, 0, text.as_str());
        proof {
            assert(spliced_in(old(self)@.text, 0, text@) =~= text@ + old(self)@.text);
        }
    }

    /// The number of chars in the text.
    pub fn len_chars(&self) -> (n: usize)
        ensures
            n == self@.text.len(),
    {
        rope_len_chars(&self.text)
    }

    /// The cursor's char index.
    pub fn cursor(&self) -> (c: usize)
        ensures
            c == self@.cursor,
    {
        self.cursor
    }

    /// Whether Control is held down.
    pub fn control(&self) -> (b: bool)
        ensures
            b == self@.control,
    {
        self.control
    }

    /// The whole text as a `String`.
    pub fn text_string(&self) -> (s: String)
        ensures
            s@ == self@.text,
    {
        rope_to_string(&self.text)
    }

    /// Where Ctrl+Backspace with the cursor at `current_pos` deletes back to:
    /// over the white space before it, then over one run of alphanumeric
    /// chars or one run of symbols.
    pub fn calculate_ctrl_backspace_target(text: &ropey::Rope, current_pos: usize) -> (target:
        usize)
        requires
            current_pos <= rope_chars(*text).len(),
        ensures
            target == ctrl_backspace_target_spec(rope_chars(*text), current_pos as int),
    {
        if current_pos == 0 {
            return 0;
        }
        let ghost s = rope_chars(*text);
        let mut new_pos = current_pos;
        let mut state = BackspaceScan::Leading;
        let mut done = false;
        while new_pos > 0 && !done
            invariant
                s == rope_chars(*text),
                new_pos <= current_pos <= s.len(),
                done ==> ctrl_backspace_target_spec(s, current_pos as int) == new_pos,
                !done ==> ctrl_backspace_target_spec(s, current_pos as int) == scan_back(
                    s,
                    new_pos as int,
                    state,
                ),
            decreases new_pos + (if done { 0int } else { 1int }),
        {
            let c = rope_char(text, new_pos - 1);
            let ws = char_is_whitespace(c);
            let al = char_is_alphanumeric(c);
            match backspace_scan_step(state, ws, al) {
                Some(next) => {
                    state = next;
                    new_pos = new_pos - 1;
                },
                None => {
                    done = true;
                },
            }
        }
        new_pos
    }

    fn type_text(&mut self, ins: &str)
        requires
            old(self).wf(),
            ins@.len() > 0 || old(self)@.cursor < old(self)@.text.len(),
            old(self)@.text.len() + ins@.len() < usize::MAX,
        ensures
            final(self).wf(),
            final(self)@ == typed(old(self)@, ins@),
    {
        rope_insert(&mut self.text, self.cursor, ins);
        self.cursor = self.cursor + 1;
    }

    fn press(&mut self, key: &EditKey) -> (r: KeyOutcome)
        requires
            old(self).wf(),
            key_event_fits(old(self)@, *key),
        ensures
            final(self).wf(),
            final(self)@ == press_spec(old(self)@, *key).0,
            r == press_spec(old(self)@, *key).1,
    {
        match key {
            EditKey::Character(c) => {
                let ins = c.as_str();
                self.type_text(ins);
                assert(self@.text =~= press_spec(old(self)@, *key).0.text);
                KeyOutcome::TextChanged
            },
            EditKey::Space => {
                proof {
                    reveal_strlit(" ");
                }
                self.type_text(" ");
                assert(self@.text =~= press_spec(old(self)@, *key).0.text);
                KeyOutcome::TextChanged
            },
            EditKey::Enter => {
                proof {
                    reveal_strlit("\n");
                }
                self.type_text("\n");
                assert(self@.text =~= press_spec(old(self)@, *key).0.text);
                KeyOutcome::TextChanged
            },
            EditKey::Tab => {
                proof {
                    reveal_strlit("\t");
                }
                self.type_text("\t");
                assert(self@.text =~= press_spec(old(self)@, *key).0.text);
                KeyOutcome::TextChanged
            },
            EditKey::Backspace => {
                if self.cursor == 0 {
                    return KeyOutcome::Nothing;
                }
                let target = if self.control {
                    Self::calculate_ctrl_backspace_target(&self.text, self.cursor)
                } else {
                    self.cursor.saturating_sub(1)
                };
                proof {
                    crate::backspace::ctrl_backspace_deletes_something(
                        old(self)@.text,
                        old(self)@.cursor as int,
                    );
                }
                rope_remove(&mut self.text, target, self.cursor);
                self.cursor = target;
                assert(self@.text =~= press_spec(old(self)@, *key).0.text);
                KeyOutcome::TextChanged
            },
            EditKey::ArrowLeft => {
                if self.cursor == 0 {
                    return KeyOutcome::Nothing;
                }
                self.cursor = self.cursor - 1;
                KeyOutcome::Redraw
            },
            EditKey::ArrowRight => {
                let new_pos = self.cursor + 1;
                let len = rope_len_chars(&self.text);
                // `new_pos` clamped to `self.cursor..=len`; it is never below
                // `self.cursor`.
                self.cursor = if new_pos > len {
                    len
                } else {
                    new_pos
                };
                KeyOutcome::Redraw
            },
            EditKey::Control => {
                self.control = true;
                KeyOutcome::Nothing
            },
            EditKey::Other => KeyOutcome::Nothing,
        }
    }

    /// Applies a key event to the editor and says what the window must do.
    pub fn handle_key(&mut self, key: &EditKey, state: KeyState) -> (r: KeyOutcome)
        requires
            old(self).wf(),
            key_event_fits(old(self)@, *key),
        ensures
            final(self).wf(),
            final(self)@ == key_event_spec(old(self)@, *key, state).0,
            r == key_event_spec(old(self)@, *key, state).1,
    {
        match state {
            KeyState::Pressed => self.press(key),
            KeyState::Released => {
                match key {
                    EditKey::Control => {
                        self.control = false;
                    },
                    _ => {},
                }
                KeyOutcome::Nothing
            },
        }
    }

    /// The line that holds the cursor, and the cursor's byte offset within
    /// that line (the UTF-8 length of the chars from the line's start up to
    /// the cursor).
    pub fn cursor_line_and_byte(&self) -> (r: (usize, usize))
        requires
            self.wf(),
        ensures
            r.0 == lines_ended_before(self@.text, self@.cursor as int),
            r.1 == encode_utf8(
                self@.text.subrange(line_start_char(self@.text, r.0 as int), self@.cursor as int),
            ).len(),
    {
        let ghost s = self@.text;
        let ghost c = self@.cursor as int;
        proof {
            lemma_lines_ended_monotonic(s, c, s.len() as int);
            lemma_line_start_at_most(s, c);
            lemma_utf8_prefix_split(s, line_start_char(s, lines_ended_before(s, c)), c);
        }
        let current_line = rope_char_to_line(&self.text, self.cursor);
        let cursor_byte_index = rope_char_to_byte(&self.text, self.cursor);
        let line_start_byte_index = rope_line_to_byte(&self.text, current_line);
        (current_line, cursor_byte_index - line_start_byte_index)
    }
}

} // verus!
