//! The editor's text lives in a `ropey::Rope`. Its contents are modelled as
//! the sequence of chars that it holds; each method the editor calls is
//! reached through a small trusted wrapper that states what the method does to
//! that sequence.

use vstd::prelude::*;
use vstd::utf8::encode_utf8;

verus! {

#[verifier::external_type_specification]
#[verifier::external_body]
pub struct ExRope(ropey::Rope);

/// The chars that a rope holds, in order.
pub uninterp spec fn rope_chars(rope: ropey::Rope) -> Seq<char>;

/// The chars that ropey counts as line breaks (the hard breaks of Unicode
/// Annex #14, with its default `unicode_lines` feature): LF, VT, FF, CR, NEL,
/// LS and PS.
pub open spec fn is_line_break_char(c: char) -> bool {
    ||| c == '\n'
    ||| c == '\u{0B}'
    ||| c == '\u{0C}'
    ||| c == '\r'
    ||| c == '\u{85}'
    ||| c == '\u{2028}'
    ||| c == '\u{2029}'
}

/// `text[j]` ends a line: it is a line break, and not the CR of a CR LF pair
/// (the pair ends one line, at its LF).
pub open spec fn ends_line(text: Seq<char>, j: int) -> bool {
    &&& is_line_break_char(text[j])
    &&& !(text[j] == '\r' && j + 1 < text.len() && text[j + 1] == '\n')
}

/// The number of lines that end within `text[..n]`: the index of the line
/// that holds char `n`.
pub open spec fn lines_ended_before(text: Seq<char>, n: int) -> int
    decreases n,
{
    if n <= 0 {
        0
    } else {
        lines_ended_before(text, n - 1) + if ends_line(text, n - 1) {
            1int
        } else {
            0int
        }
    }
}

/// The first index from `c` on before which `line` lines have ended, or the
/// end of the text if there is none.
pub open spec fn first_start_from(text: Seq<char>, line: int, c: int) -> int
    decreases text.len() - c,
{
    if c >= text.len() {
        text.len() as int
    } else if lines_ended_before(text, c) >= line {
        c
    } else {
        first_start_from(text, line, c + 1)
    }
}

/// The char index at which line `line` starts (the end of the text for the
/// line after the last).
pub open spec fn line_start_char(text: Seq<char>, line: int) -> int {
    first_start_from(text, line, 0)
}

/// The number of bytes that the first `n` chars of `text` take in UTF-8.
pub open spec fn utf8_len_of_prefix(text: Seq<char>, n: int) -> int {
    encode_utf8(text.take(n)).len() as int
}

/// `text` with `ins` put in at char index `at`.
pub open spec fn spliced_in(text: Seq<char>, at: int, ins: Seq<char>) -> Seq<char> {
    text.take(at) + ins + text.skip(at)
}

/// `text` without the chars at indices `start..end`.
pub open spec fn cut_out(text: Seq<char>, start: int, end: int) -> Seq<char> {
    text.take(start) + text.skip(end)
}

/// `ropey::Rope::new`: an empty rope.
#[verifier::external_body]
pub(crate) fn rope_new() -> (r: ropey::Rope)
    ensures
        rope_chars(r) == Seq::<char>::empty(),
{
    ropey::Rope::new()
}

/// `ropey::Rope::len_chars`: the number of chars held.
#[verifier::external_body]
pub(crate) fn rope_len_chars(rope: &ropey::Rope) -> (n: usize)
    ensures
        n == rope_chars(*rope).len(),
{
    rope.len_chars()
}

/// The number of chars a rope holds, for callers that must show a char
/// index to be within it.
pub fn rope_char_count(rope: &ropey::Rope) -> (n: usize)
    ensures
        n == rope_chars(*rope).len(),
{
    rope_len_chars(rope)
}

/// `ropey::Rope::insert`: puts `text` in at char index `char_idx`; it panics
/// when `char_idx` is past the end, which `requires` rules out.
#[verifier::external_body]
pub(crate) fn rope_insert(rope: &mut ropey::Rope, char_idx: usize, text: &str)
    requires
        char_idx <= rope_chars(*old(rope)).len(),
    ensures
        rope_chars(*final(rope)) == spliced_in(rope_chars(*old(rope)), char_idx as int, text@),
{
    rope.insert(char_idx, text)
}

/// `ropey::Rope::remove` on the range `start..end`: takes those chars out;
/// it panics when `start > end` or `end` is past the end, which `requires`
/// rules out.
#[verifier::external_body]
pub(crate) fn rope_remove(rope: &mut ropey::Rope, start: usize, end: usize)
    requires
        start <= end <= rope_chars(*old(rope)).len(),
    ensures
        rope_chars(*final(rope)) == cut_out(rope_chars(*old(rope)), start as int, end as int),
{
    rope.remove(start..end)
}

/// `ropey::Rope::char`: the char at `char_idx`; it panics when the index is
/// not below the length, which `requires` rules out.
#[verifier::external_body]
pub(crate) fn rope_char(rope: &ropey::Rope, char_idx: usize) -> (c: char)
    requires
        char_idx < rope_chars(*rope).len(),
    ensures
        c == rope_chars(*rope)[char_idx as int],
{
    rope.char(char_idx)
}

/// `ropey::Rope::char_to_byte`: the UTF-8 byte offset of char `char_idx`,
/// that is the encoded length of the chars before it (ropey stores the text
/// as UTF-8); it panics past the end, which `requires` rules out.
#[verifier::external_body]
pub(crate) fn rope_char_to_byte(rope: &ropey::Rope, char_idx: usize) -> (b: usize)
    requires
        char_idx <= rope_chars(*rope).len(),
    ensures
        b == utf8_len_of_prefix(rope_chars(*rope), char_idx as int),
{
    rope.char_to_byte(char_idx)
}

/// `ropey::Rope::char_to_line`: the line that holds char `char_idx`, that
/// is the number of lines that end before it; it panics past the end, which
/// `requires` rules out.
#[verifier::external_body]
pub(crate) fn rope_char_to_line(rope: &ropey::Rope, char_idx: usize) -> (line: usize)
    requires
        char_idx <= rope_chars(*rope).len(),
    ensures
        line == lines_ended_before(rope_chars(*rope), char_idx as int),
{
    rope.char_to_line(char_idx)
}

/// `ropey::Rope::line_to_byte`: the UTF-8 byte offset at which line
/// `line_idx` starts (just after the break that ends the line before it,
/// or the end of the text for the line after the last); it panics past that
/// line, which `requires` rules out.
#[verifier::external_body]
pub(crate) fn rope_line_to_byte(rope: &ropey::Rope, line_idx: usize) -> (b: usize)
    requires
        line_idx <= lines_ended_before(rope_chars(*rope), rope_chars(*rope).len() as int) + 1,
    ensures
        b == utf8_len_of_prefix(
            rope_chars(*rope),
            line_start_char(rope_chars(*rope), line_idx as int),
        ),
{
    rope.line_to_byte(line_idx)
}

/// `encode_utf8` of a concatenation is the concatenation of the encodings.
pub proof fn lemma_encode_utf8_concat(a: Seq<char>, b: Seq<char>)
    ensures
        encode_utf8(a + b) == encode_utf8(a) + encode_utf8(b),
    decreases a.len(),
{
    if a.len() > 0 {
        lemma_encode_utf8_concat(a.drop_first(), b);
        assert((a + b).drop_first() =~= a.drop_first() + b);
        assert(encode_utf8(a + b) =~= encode_utf8(a) + encode_utf8(b));
    } else {
        assert(a + b =~= b);
        assert(encode_utf8(a) + encode_utf8(b) =~= encode_utf8(b));
    }
}

/// The encoding of `text[..m]` followed by that of `text[m..n]` is the
/// encoding of `text[..n]`.
pub proof fn lemma_utf8_prefix_split(text: Seq<char>, m: int, n: int)
    requires
        0 <= m <= n <= text.len(),
    ensures
        utf8_len_of_prefix(text, n) == utf8_len_of_prefix(text, m) + encode_utf8(
            text.subrange(m, n),
        ).len(),
{
    assert(text.take(n) =~= text.take(m) + text.subrange(m, n));
    lemma_encode_utf8_concat(text.take(m), text.subrange(m, n));
}

/// More chars hold at least as many line ends.
pub proof fn lemma_lines_ended_monotonic(text: Seq<char>, a: int, b: int)
    requires
        0 <= a <= b,
    ensures
        lines_ended_before(text, a) <= lines_ended_before(text, b),
    decreases b - a,
{
    if a < b {
        lemma_lines_ended_monotonic(text, a, b - 1);
    }
}

proof fn lemma_first_start_at_most(text: Seq<char>, line: int, c: int, c0: int)
    requires
        0 <= c <= c0 <= text.len(),
        lines_ended_before(text, c0) >= line,
    ensures
        c <= first_start_from(text, line, c) <= c0,
    decreases text.len() - c,
{
    if c < text.len() && lines_ended_before(text, c) < line {
        lemma_first_start_at_most(text, line, c + 1, c0);
    }
}

/// The line that holds char `c` starts at or before `c`.
pub proof fn lemma_line_start_at_most(text: Seq<char>, c: int)
    requires
        0 <= c <= text.len(),
    ensures
        0 <= line_start_char(text, lines_ended_before(text, c)) <= c,
{
    lemma_first_start_at_most(text, lines_ended_before(text, c), 0, c);
}

/// `ToString::to_string` on a rope (through its `Display`, which writes its
/// chunks in order): a `String` holding the same chars.
#[verifier::external_body]
pub(crate) fn rope_to_string(rope: &ropey::Rope) -> (s: String)
    ensures
        s@ == rope_chars(*rope),
{
    rope.to_string()
}

} // verus!
