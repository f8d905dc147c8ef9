//! Where the cursor goes on screen. The text layout comes in runs (one per
//! laid-out row; a long line that wraps gives several runs with the same line
//! index), each a list of glyphs with the byte offset (within the line) at
//! which each glyph starts. The cursor is drawn at the glyph that starts at
//! its byte offset, or just after the last glyph of its line's run when it
//! stands past that glyph; its row is that of the last run of its line.

use vstd::prelude::*;

verus! {

/// A run of the layout, as far as placing the cursor needs it: the index of
/// the text line it shows, and where each of its glyphs starts (a byte offset
/// within that line).
pub struct LayoutRunGlyphs {
    pub line_i: usize,
    pub glyph_starts: Vec<usize>,
}

/// Where the cursor goes across.
#[derive(Clone, Copy, Debug, PartialEq, Eq, Structural)]
pub enum CursorX {
    /// At the left edge.
    Origin,
    /// At the left of glyph `glyph` of run `run`.
    AtGlyph { run: usize, glyph: usize },
    /// At the right of glyph `glyph` of run `run`.
    AfterGlyph { run: usize, glyph: usize },
}

/// Where the cursor goes: across, and the run whose row it is drawn on
/// (`None`: the row is worked out from the line index alone).
#[derive(Clone, Copy, Debug, PartialEq, Eq, Structural)]
pub struct CursorPlacement {
    pub x: CursorX,
    pub y_run: Option<usize>,
}

/// Run `r` shows line `line`.
pub open spec fn run_on_line(runs: Seq<LayoutRunGlyphs>, line: usize, r: int) -> bool {
    0 <= r < runs.len() && runs[r].line_i == line
}

/// Glyph `g` of run `r` is on line `line` and starts at byte offset `byte`.
pub open spec fn glyph_hit(runs: Seq<LayoutRunGlyphs>, line: usize, byte: usize, r: int, g: int) -> bool {
    &&& run_on_line(runs, line, r)
    &&& 0 <= g < runs[r].glyph_starts@.len()
    &&& runs[r].glyph_starts@[g] == byte
}

/// Run `r` is on line `line`, has glyphs, and its last glyph starts before
/// `byte`.
pub open spec fn run_tail(runs: Seq<LayoutRunGlyphs>, line: usize, byte: usize, r: int) -> bool {
    &&& run_on_line(runs, line, r)
    &&& runs[r].glyph_starts@.len() > 0
    &&& byte > runs[r].glyph_starts@.last()
}

/// `(r, g)` comes before the bound `(i, j)` in the order in which runs and
/// their glyphs are walked.
pub open spec fn walked_before(r: int, g: int, i: int, j: int) -> bool {
    r < i || (r == i && g < j)
}

/// The no-later-hit and no-later-tail facts that pin the placement down.
pub open spec fn placement_x_spec(runs: Seq<LayoutRunGlyphs>, line: usize, byte: usize, x: CursorX) -> bool {
    match x {
        CursorX::AtGlyph { run, glyph } => {
            &&& glyph_hit(runs, line, byte, run as int, glyph as int)
            &&& forall|r: int, g: int|
                #[trigger] glyph_hit(runs, line, byte, r, g) ==> walked_before(
                    r,
                    g,
                    run as int,
                    glyph + 1,
                )
        },
        CursorX::AfterGlyph { run, glyph } => {
            &&& forall|r: int, g: int| !#[trigger] glyph_hit(runs, line, byte, r, g)
            &&& run_tail(runs, line, byte, run as int)
            &&& glyph + 1 == runs[run as int].glyph_starts@.len()
            &&& forall|r: int| run < r ==> !#[trigger] run_tail(runs, line, byte, r)
        },
        CursorX::Origin => {
            &&& forall|r: int, g: int| !#[trigger] glyph_hit(runs, line, byte, r, g)
            &&& forall|r: int| !#[trigger] run_tail(runs, line, byte, r)
        },
    }
}

/// The row: the last run of the line, if any.
pub open spec fn placement_y_spec(runs: Seq<LayoutRunGlyphs>, line: usize, y: Option<usize>) -> bool {
    match y {
        Some(r) => run_on_line(runs, line, r as int) && forall|r2: int|
            r < r2 ==> !#[trigger] run_on_line(runs, line, r2),
        None => forall|r: int| !#[trigger] run_on_line(runs, line, r),
    }
}

/// The walk's state, after it has looked at every glyph before `(i, j)` and
/// at the tails of the runs before `i`.
spec fn walk_state(
    runs: Seq<LayoutRunGlyphs>,
    line: usize,
    byte: usize,
    x: CursorX,
    found: bool,
    i: int,
    j: int,
) -> bool {
    &&& found <==> exists|r: int, g: int|
        #[trigger] glyph_hit(runs, line, byte, r, g) && walked_before(r, g, i, j)
    &&& found ==> match x {
        CursorX::AtGlyph { run, glyph } => {
            &&& glyph_hit(runs, line, byte, run as int, glyph as int)
            &&& walked_before(run as int, glyph as int, i, j)
            &&& forall|r: int, g: int|
                #[trigger] glyph_hit(runs, line, byte, r, g) && walked_before(r, g, i, j)
                    ==> walked_before(r, g, run as int, glyph + 1)
        },
        _ => false,
    }
    &&& !found ==> match x {
        CursorX::Origin => forall|r: int| r < i ==> !#[trigger] run_tail(runs, line, byte, r),
        CursorX::AfterGlyph { run, glyph } => {
            &&& run < i
            &&& run_tail(runs, line, byte, run as int)
            &&& glyph + 1 == runs[run as int].glyph_starts@.len()
            &&& forall|r: int| run < r < i ==> !#[trigger] run_tail(runs, line, byte, r)
        },
        _ => false,
    }
}

/// Where the cursor goes, given the layout runs, the cursor's line and its
/// byte offset within that line.
pub fn locate_cursor_glyph(runs: &Vec<LayoutRunGlyphs>, line: usize, byte: usize) -> (p:
    CursorPlacement)
    ensures
        placement_x_spec(runs@, line, byte, p.x),
        placement_y_spec(runs@, line, p.y_run),
{
    let mut x = CursorX::Origin;
    let mut found = false;
    let mut y_run: Option<usize> = None;
    let mut i: usize = 0;
    while i < runs.len()
        invariant
            i <= runs.len(),
            walk_state(runs@, line, byte, x, found, i as int, 0),
            match y_run {
                Some(r) => r < i && run_on_line(runs@, line, r as int) && forall|r2: int|
                    r < r2 < i ==> !#[trigger] run_on_line(runs@, line, r2),
                None => forall|r: int| 0 <= r < i ==> !#[trigger] run_on_line(runs@, line, r),
            },
        decreases runs.len() - i,
    {
        let run = &runs[i];
        if run.line_i == line {
            y_run = Some(i);
            let n = run.glyph_starts.len();
            let mut j: usize = 0;
            while j < n
                invariant
                    i < runs.len(),
                    run == runs@[i as int],
                    run.line_i == line,
                    n == run.glyph_starts@.len(),
                    j <= n,
                    walk_state(runs@, line, byte, x, found, i as int, j as int),
                decreases n - j,
            {
                if run.glyph_starts[j] == byte {
                    x = CursorX::AtGlyph { run: i, glyph: j };
                    found = true;
                    assert(glyph_hit(runs@, line, byte, i as int, j as int));
                }
                j = j + 1;
            }
            if !found {
                if n > 0 {
                    if byte > run.glyph_starts[n - 1] {
                        x = CursorX::AfterGlyph { run: i, glyph: n - 1 };
                    }
                }
            }
            assert(walk_state(runs@, line, byte, x, found, i + 1, 0)) by {
                assert(forall|r: int, g: int|
                    #[trigger] glyph_hit(runs@, line, byte, r, g) ==> (walked_before(
                        r,
                        g,
                        i + 1,
                        0,
                    ) <==> walked_before(r, g, i as int, n as int)));
            }
        } else {
            assert(walk_state(runs@, line, byte, x, found, i + 1, 0)) by {
                assert(forall|r: int, g: int|
                    #[trigger] glyph_hit(runs@, line, byte, r, g) ==> (walked_before(
                        r,
                        g,
                        i + 1,
                        0,
                    ) <==> walked_before(r, g, i as int, 0)));
                assert(!run_tail(runs@, line, byte, i as int));
            }
        }
        i = i + 1;
    }
    CursorPlacement { x, y_run }
}

} // verus!
