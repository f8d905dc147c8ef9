//! The verified core of a small text editor: the text and cursor model, the
//! rules by which key presses edit them, the word-wise backspace, and the
//! choice of the glyph that places the cursor on screen.

pub mod rope_text;
pub mod chars;
pub mod backspace;
pub mod editor;
pub mod layout;
pub mod laws;
pub mod key_laws;
