//! Board layout generation and validation.
//!
//! A layout is the flattened row-major sequence of jewel types for a
//! `rows x cols` board. A layout is valid — immediately playable — when no
//! three equal jewels stand consecutively in a row and none stand three
//! high in a column: nothing on the board already constitutes a completed
//! match.

use vstd::prelude::*;

verus! {

/// The closed set of jewel types a cell can hold.
#[derive(Debug, Clone, Copy, PartialEq, Eq, Structural)]
pub enum Jewel {
    Red,
    Orange,
    Yellow,
    Green,
    Blue,
    Purple,
}

/// How many jewel types there are.
pub const JEWEL_KINDS: u8 = 6;

/// The jewel for an index below [`JEWEL_KINDS`].
pub open spec fn spec_jewel_from_index(i: u8) -> Jewel {
    if i == 0 {
        Jewel::Red
    } else if i == 1 {
        Jewel::Orange
    } else if i == 2 {
        Jewel::Yellow
    } else if i == 3 {
        Jewel::Green
    } else if i == 4 {
        Jewel::Blue
    } else {
        Jewel::Purple
    }
}

/// Maps an index below [`JEWEL_KINDS`] to its jewel.
pub fn jewel_from_index(i: u8) -> (j: Jewel)
    requires
        i < JEWEL_KINDS,
    ensures
        j == spec_jewel_from_index(i),
{
    if i == 0 {
        Jewel::Red
    } else if i == 1 {
        Jewel::Orange
    } else if i == 2 {
        Jewel::Yellow
    } else if i == 3 {
        Jewel::Green
    } else if i == 4 {
        Jewel::Blue
    } else {
        Jewel::Purple
    }
}

/// The cell of a row-major layout at row `r`, column `c`.
pub open spec fn cell(cells: Seq<Jewel>, cols: int, r: int, c: int) -> Jewel {
    cells[r * cols + c]
}

/// Three equal jewels side by side in one row, starting at column `c`.
pub open spec fn row_triple_at(cells: Seq<Jewel>, cols: int, r: int, c: int) -> bool {
    &&& cell(cells, cols, r, c) == cell(cells, cols, r, c + 1)
    &&& cell(cells, cols, r, c) == cell(cells, cols, r, c + 2)
}

/// Three equal jewels stacked in one column, starting at row `r`.
pub open spec fn col_triple_at(cells: Seq<Jewel>, cols: int, r: int, c: int) -> bool {
    &&& cell(cells, cols, r, c) == cell(cells, cols, r + 1, c)
    &&& cell(cells, cols, r, c) == cell(cells, cols, r + 2, c)
}

/// Some row holds three consecutive equal jewels.
pub open spec fn has_row_triple(cells: Seq<Jewel>, rows: int, cols: int) -> bool {
    exists|r: int, c: int| 0 <= r < rows && 0 <= c && c + 2 < cols && row_triple_at(cells, cols, r, c)
}

/// Some column holds three vertically consecutive equal jewels.
pub open spec fn has_col_triple(cells: Seq<Jewel>, rows: int, cols: int) -> bool {
    exists|r: int, c: int| 0 <= r && r + 2 < rows && 0 <= c < cols && col_triple_at(cells, cols, r, c)
}

/// A layout of the right size with no pre-existing match: no run of three
/// or more equal jewels within a row, none within a column. (A run of more
/// than three contains a run of exactly three, so ruling out every triple
/// rules out every longer run as well.)
pub open spec fn layout_valid(cells: Seq<Jewel>, rows: int, cols: int) -> bool {
    &&& cells.len() == rows * cols
    &&& !has_row_triple(cells, rows, cols)
    &&& !has_col_triple(cells, rows, cols)
}

/// The flat index of row `r`, column `c` stays inside a `rows x cols`
/// layout.
proof fn lemma_index_in_bounds(rows: int, cols: int, r: int, c: int)
    requires
        0 <= r < rows,
        0 <= c < cols,
    ensures
        0 <= r * cols + c < rows * cols,
{
    assert(0 <= r * cols + c && r * cols + c < rows * cols) by (nonlinear_arith)
        requires
            0 <= r < rows,
            0 <= c < cols,
    ;
}

/// Scans every row for three consecutive equal jewels.
#[verifier::loop_isolation(false)]
fn row_triple_check(cells: &Vec<Jewel>, rows: u16, cols: u16) -> (found: bool)
    requires
        cells@.len() == rows * cols,
    ensures
        found == has_row_triple(cells@, rows as int, cols as int),
{
    // The layout's length is a usize and equals rows * cols, which bounds
    // every flat index the scan computes.
    let len: usize = cells.len();
    let rows: usize = rows as usize;
    let cols: usize = cols as usize;
    let mut r: usize = 0;
    while r < rows
        invariant
            r <= rows,
            !(exists|i: int, j: int|
                0 <= i < r && 0 <= j && j + 2 < cols && row_triple_at(cells@, cols as int, i, j)),
        decreases rows - r,
    {
        if cols >= 3 {
            let mut c: usize = 0;
            while c + 2 < cols
                invariant
                    r < rows,
                    c < cols,
                    !(exists|j: int| 0 <= j < c && row_triple_at(cells@, cols as int, r as int, j)),
                decreases cols - c,
            {
                proof {
                    lemma_index_in_bounds(rows as int, cols as int, r as int, c + 2);
                }
                let base: usize = r * cols + c;
                if cells[base] == cells[base + 1] && cells[base] == cells[base + 2] {
                    assert(row_triple_at(cells@, cols as int, r as int, c as int));
                    return true;
                }
                c = c + 1;
            }
        }
        r = r + 1;
    }
    false
}

/// Scans every column for three vertically consecutive equal jewels.
#[verifier::loop_isolation(false)]
fn col_triple_check(cells: &Vec<Jewel>, rows: u16, cols: u16) -> (found: bool)
    requires
        cells@.len() == rows * cols,
    ensures
        found == has_col_triple(cells@, rows as int, cols as int),
{
    // The layout's length is a usize and equals rows * cols, which bounds
    // every flat index the scan computes.
    let len: usize = cells.len();
    let rows: usize = rows as usize;
    let cols: usize = cols as usize;
    if rows < 3 {
        return false;
    }
    let mut c: usize = 0;
    while c < cols
        invariant
            c <= cols,
            !(exists|i: int, j: int|
                0 <= i && i + 2 < rows && 0 <= j < c && col_triple_at(cells@, cols as int, i, j)),
        decreases cols - c,
    {
        let mut r: usize = 0;
        while r + 2 < rows
            invariant
                c < cols,
                r < rows,
                !(exists|i: int| 0 <= i < r && col_triple_at(cells@, cols as int, i, c as int)),
            decreases rows - r,
        {
            proof {
                lemma_index_in_bounds(rows as int, cols as int, r + 2, c as int);
                assert((r + 1) * (cols as int) + c == r * cols + c + cols) by (nonlinear_arith);
                assert((r + 2) * (cols as int) + c == r * cols + c + 2 * cols) by (nonlinear_arith);
            }
            let base: usize = r * cols + c;
            if cells[base] == cells[base + cols] && cells[base] == cells[base + 2 * cols] {
                assert(col_triple_at(cells@, cols as int, r as int, c as int));
                return true;
            }
            r = r + 1;
        }
        c = c + 1;
    }
    false
}

/// Decides whether a layout is immediately playable: true exactly when no
/// row and no column holds three consecutive equal jewels.
pub fn layout_valid_check(cells: &Vec<Jewel>, rows: u16, cols: u16) -> (valid: bool)
    requires
        cells@.len() == rows * cols,
    ensures
        valid == layout_valid(cells@, rows as int, cols as int),
{
    let row_found = row_triple_check(cells, rows, cols);
    let col_found = col_triple_check(cells, rows, cols);
    !row_found && !col_found
}

/// Relies on rand::random_range over the thread-local generator: returns a
/// value uniformly drawn from the given half-open range, here `0..6`; the
/// call cannot panic since the range is not empty. Nothing can be promised
/// beyond the bound, so every caller must work for every value below it.
#[verifier::external_body]
fn random_jewel_index() -> (i: u8)
    ensures
        i < JEWEL_KINDS,
{
    rand::random_range(0u8..6u8)
}

/// Draws one full `rows x cols` layout of uniformly random jewels, with no
/// validity constraint yet.
#[verifier::loop_isolation(false)]
fn sample_layout(rows: u16, cols: u16) -> (cells: Vec<Jewel>)
    ensures
        cells@.len() == rows * cols,
{
    proof {
        assert((rows as int) * (cols as int) <= 0xffff * 0xffff) by (nonlinear_arith)
            requires
                rows <= 0xffff,
                cols <= 0xffff,
        ;
    }
    let size: usize = (rows as usize) * (cols as usize);
    let mut cells: Vec<Jewel> = Vec::new();
    while cells.len() < size
        invariant
            cells@.len() <= size,
            size == rows * cols,
        decreases size - cells@.len(),
    {
        cells.push(jewel_from_index(random_jewel_index()));
    }
    cells
}

/// How many fresh layouts `generate` samples before giving up. With six
/// jewel types an 8 x 8 sample is valid a good tenth of the time, so this
/// cap makes failure astronomically unlikely while still ruling out an
/// unbounded retry loop.
pub const MAX_GENERATION_ATTEMPTS: u32 = 1000;

/// Produces a random immediately-playable layout for a `rows x cols` board.
///
/// Samples a full fresh layout and validates it; on failure the entire
/// layout is resampled, up to [`MAX_GENERATION_ATTEMPTS`] times. Every
/// returned layout is valid; `None` reports that no valid layout was drawn
/// within the cap, which callers must treat as a fatal condition rather
/// than retry forever.
pub fn generate(rows: u16, cols: u16) -> (layout: Option<Vec<Jewel>>)
    ensures
        layout matches Some(cells) ==> layout_valid(cells@, rows as int, cols as int),
        layout matches Some(cells) ==> cells@.len() == rows * cols,
{
    let mut attempt: u32 = 0;
    while attempt < MAX_GENERATION_ATTEMPTS
        invariant
            attempt <= MAX_GENERATION_ATTEMPTS,
        decreases MAX_GENERATION_ATTEMPTS - attempt,
    {
        let cells = sample_layout(rows, cols);
        if layout_valid_check(&cells, rows, cols) {
            return Some(cells);
        }
        attempt = attempt + 1;
    }
    None
}

} // verus!
