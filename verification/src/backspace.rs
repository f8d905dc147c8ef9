//! Word-wise backspace (Ctrl+Backspace): from the cursor, walk back over
//! white space, then over one run of word chars or one run of symbols.

use vstd::prelude::*;

use crate::chars::{is_alphanumeric_char, is_whitespace_char};

verus! {

/// Where the backward walk is: still over the white space before the cursor,
/// inside a run of alphanumeric chars, or inside a run of symbols (chars that
/// are neither white space nor alphanumeric).
#[derive(Clone, Copy, Debug, PartialEq, Eq, Structural)]
pub enum BackspaceScan {
    Leading,
    Word,
    Symbols,
}

/// One step of the walk: given the state and the class of the char just
/// before the current position, the next state, or `None` where the walk
/// stops before that char.
pub open spec fn backspace_step_spec(
    state: BackspaceScan,
    is_whitespace: bool,
    is_alphanumeric: bool,
) -> Option<BackspaceScan> {
    match state {
        BackspaceScan::Leading => {
            if is_whitespace {
                Some(BackspaceScan::Leading)
            } else if is_alphanumeric {
                Some(BackspaceScan::Word)
            } else {
                Some(BackspaceScan::Symbols)
            }
        },
        BackspaceScan::Word => {
            if is_alphanumeric {
                Some(BackspaceScan::Word)
            } else {
                None
            }
        },
        BackspaceScan::Symbols => {
            if !is_alphanumeric && !is_whitespace {
                Some(BackspaceScan::Symbols)
            } else {
                None
            }
        },
    }
}

/// The position at which the walk stops when it starts at `i` in `state`.
pub open spec fn scan_back(text: Seq<char>, i: int, state: BackspaceScan) -> int
    decreases i,
{
    if i <= 0 {
        0
    } else {
        let c = text[i - 1];
        match backspace_step_spec(state, is_whitespace_char(c), is_alphanumeric_char(c)) {
            None => i,
            Some(next) => scan_back(text, i - 1, next),
        }
    }
}

/// Where Ctrl+Backspace with the cursor at `pos` deletes back to.
pub open spec fn ctrl_backspace_target_spec(text: Seq<char>, pos: int) -> int {
    scan_back(text, pos, BackspaceScan::Leading)
}

/// The decision of one step of the walk.
pub fn backspace_scan_step(state: BackspaceScan, is_whitespace: bool, is_alphanumeric: bool) -> (r:
    Option<BackspaceScan>)
    ensures
        r == backspace_step_spec(state, is_whitespace, is_alphanumeric),
{
    match state {
        BackspaceScan::Leading => {
            if is_whitespace {
                Some(BackspaceScan::Leading)
            } else if is_alphanumeric {
                Some(BackspaceScan::Word)
            } else {
                Some(BackspaceScan::Symbols)
            }
        },
        BackspaceScan::Word => {
            if is_alphanumeric {
                Some(BackspaceScan::Word)
            } else {
                None
            }
        },
        BackspaceScan::Symbols => {
            if !is_alphanumeric && !is_whitespace {
                Some(BackspaceScan::Symbols)
            } else {
                None
            }
        },
    }
}

/// Every char of `text[a..b]` is white space.
pub open spec fn all_whitespace(text: Seq<char>, a: int, b: int) -> bool {
    forall|i: int| a <= i < b ==> #[trigger] is_whitespace_char(text[i])
}

/// `text[t..k]` is a whole run of alphanumeric chars: nothing alphanumeric
/// stands just before it.
pub open spec fn whole_word_run(text: Seq<char>, t: int, k: int) -> bool {
    &&& forall|i: int| t <= i < k ==> #[trigger] is_alphanumeric_char(text[i])
    &&& (t == 0 || !is_alphanumeric_char(text[t - 1]))
}

/// `text[t..k]` is a whole run of symbols: the char just before it, if any,
/// is white space or alphanumeric.
pub open spec fn whole_symbol_run(text: Seq<char>, t: int, k: int) -> bool {
    &&& forall|i: int|
        #![trigger text[i]]
        t <= i < k ==> !is_alphanumeric_char(text[i]) && !is_whitespace_char(text[i])
    &&& (t == 0 || is_whitespace_char(text[t - 1]) || is_alphanumeric_char(text[t - 1]))
}

/// `text[t..pos]` is the white space just before `pos` (all of it), preceded
/// by one whole word or one whole run of symbols, or, where nothing but white
/// space stands before `pos`, all of `text[..pos]`.
pub open spec fn deletes_space_then_one_run(text: Seq<char>, t: int, pos: int) -> bool {
    exists|k: int|
        #![trigger all_whitespace(text, k, pos)]
        t <= k <= pos && all_whitespace(text, k, pos) && if k == t {
            t == 0
        } else {
            !is_whitespace_char(text[k - 1]) && (whole_word_run(text, t, k) || whole_symbol_run(
                text,
                t,
                k,
            ))
        }
}

proof fn lemma_scan_word(text: Seq<char>, i: int)
    requires
        0 <= i <= text.len(),
    ensures
        0 <= scan_back(text, i, BackspaceScan::Word) <= i,
        whole_word_run(text, scan_back(text, i, BackspaceScan::Word), i),
    decreases i,
{
    if i > 0 {
        lemma_scan_word(text, i - 1);
    }
}

proof fn lemma_scan_symbols(text: Seq<char>, i: int)
    requires
        0 <= i <= text.len(),
    ensures
        0 <= scan_back(text, i, BackspaceScan::Symbols) <= i,
        whole_symbol_run(text, scan_back(text, i, BackspaceScan::Symbols), i),
    decreases i,
{
    if i > 0 {
        lemma_scan_symbols(text, i - 1);
    }
}

proof fn lemma_scan_leading(text: Seq<char>, i: int)
    requires
        0 <= i <= text.len(),
    ensures
        0 <= scan_back(text, i, BackspaceScan::Leading) <= i,
        i > 0 ==> scan_back(text, i, BackspaceScan::Leading) < i,
        deletes_space_then_one_run(text, scan_back(text, i, BackspaceScan::Leading), i),
    decreases i,
{
    let t = scan_back(text, i, BackspaceScan::Leading);
    if i == 0 {
        assert(all_whitespace(text, 0, 0));
    } else {
        let c = text[i - 1];
        if is_whitespace_char(c) {
            lemma_scan_leading(text, i - 1);
            let k = choose|k: int|
                #![trigger all_whitespace(text, k, i - 1)]
                t <= k <= i - 1 && all_whitespace(text, k, i - 1) && if k == t {
                    t == 0
                } else {
                    !is_whitespace_char(text[k - 1]) && (whole_word_run(text, t, k)
                        || whole_symbol_run(text, t, k))
                };
            assert(all_whitespace(text, k, i));
        } else if is_alphanumeric_char(c) {
            lemma_scan_word(text, i - 1);
            assert(all_whitespace(text, i, i));
        } else {
            lemma_scan_symbols(text, i - 1);
            assert(all_whitespace(text, i, i));
        }
    }
}

/// Ctrl+Backspace with the cursor at `pos` deletes back to a position at or
/// before the cursor, and strictly before it when the cursor is not at the
/// start: it always deletes at least one char.
pub proof fn ctrl_backspace_deletes_something(text: Seq<char>, pos: int)
    requires
        0 <= pos <= text.len(),
    ensures
        0 <= ctrl_backspace_target_spec(text, pos) <= pos,
        pos > 0 ==> ctrl_backspace_target_spec(text, pos) < pos,
{
    lemma_scan_leading(text, pos);
}

/// Ctrl+Backspace deletes the white space just before the cursor and then one
/// whole word, or one whole run of symbols, before that white space (or, if
/// only white space stands before the cursor, everything before it).
pub proof fn ctrl_backspace_deletes_space_then_one_run(text: Seq<char>, pos: int)
    requires
        0 <= pos <= text.len(),
    ensures
        deletes_space_then_one_run(text, ctrl_backspace_target_spec(text, pos), pos),
{
    lemma_scan_leading(text, pos);
}

/// No char of `text[..n]` is both alphanumeric and white space.
pub open spec fn classes_disjoint(text: Seq<char>, n: int) -> bool {
    forall|j: int| 0 <= j < n ==> #[trigger] is_alphanumeric_char(text[j]) ==> !is_whitespace_char(text[j])
}

proof fn lemma_word_same_target(text: Seq<char>, i: int, i2: int)
    requires
        0 <= i2 <= i <= text.len(),
        scan_back(text, i, BackspaceScan::Word) <= i2,
    ensures
        scan_back(text, i2, BackspaceScan::Word) == scan_back(text, i, BackspaceScan::Word),
    decreases i - i2,
{
    if i2 < i {
        lemma_word_same_target(text, i - 1, i2);
    }
}

proof fn lemma_symbols_same_target(text: Seq<char>, i: int, i2: int)
    requires
        0 <= i2 <= i <= text.len(),
        scan_back(text, i, BackspaceScan::Symbols) <= i2,
    ensures
        scan_back(text, i2, BackspaceScan::Symbols) == scan_back(text, i, BackspaceScan::Symbols),
    decreases i - i2,
{
    if i2 < i {
        lemma_symbols_same_target(text, i - 1, i2);
    }
}

proof fn lemma_leading_same_target(text: Seq<char>, i: int, i2: int)
    requires
        0 <= i2 <= i <= text.len(),
        scan_back(text, i, BackspaceScan::Leading) < i2,
        classes_disjoint(text, i),
    ensures
        scan_back(text, i2, BackspaceScan::Leading) == scan_back(text, i, BackspaceScan::Leading),
    decreases i,
{
    let t = scan_back(text, i, BackspaceScan::Leading);
    if i2 < i {
        let c = text[i - 1];
        if is_whitespace_char(c) {
            lemma_leading_same_target(text, i - 1, i2);
        } else if is_alphanumeric_char(c) {
            lemma_scan_word(text, i - 1);
            let d = text[i2 - 1];
            assert(is_alphanumeric_char(d));
            assert(!is_whitespace_char(d));
            lemma_word_same_target(text, i - 1, i2 - 1);
        } else {
            lemma_scan_symbols(text, i - 1);
            let d = text[i2 - 1];
            assert(!is_alphanumeric_char(d) && !is_whitespace_char(d));
            lemma_symbols_same_target(text, i - 1, i2 - 1);
        }
    }
}

/// Ctrl+Backspace targets move with the cursor: from an earlier cursor the
/// target is no later, and from any cursor position inside the span that
/// Ctrl+Backspace would delete the target is the same. This needs that no
/// char before the later cursor is both alphanumeric and white space (which
/// std's char classes guarantee).
pub proof fn ctrl_backspace_target_monotonic(text: Seq<char>, p1: int, p2: int)
    requires
        0 <= p1 <= p2 <= text.len(),
        classes_disjoint(text, p2),
    ensures
        ctrl_backspace_target_spec(text, p1) <= ctrl_backspace_target_spec(text, p2),
        ctrl_backspace_target_spec(text, p2) < p1 ==> ctrl_backspace_target_spec(text, p1)
            == ctrl_backspace_target_spec(text, p2),
{
    lemma_scan_leading(text, p1);
    lemma_scan_leading(text, p2);
    if ctrl_backspace_target_spec(text, p2) < p1 {
        lemma_leading_same_target(text, p2, p1);
    }
}

} // verus!
