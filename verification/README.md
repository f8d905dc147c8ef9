# text_editor

A small GPU text editor whose editing core is verified with Verus.

- `src/rope_text.rs` — the `ropey::Rope` that holds the text, modelled as a
  sequence of chars, and the trusted wrappers of the rope methods in use.
- `src/chars.rs` — `char::is_whitespace` / `char::is_alphanumeric`, named.
- `src/backspace.rs` — the word-wise backspace walk and its laws.
- `src/editor.rs` — the editor state, key events and their specification.
- `src/layout.rs` — which glyph of the text layout places the cursor.
- `src/laws.rs` — properties that span several key events.
- `app/main.rs` — the winit window, wgpu drawing and glyphon layout.
