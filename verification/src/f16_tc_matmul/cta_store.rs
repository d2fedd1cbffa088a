use vstd::prelude::*;

use super::cta_stage::lemma_row_major_index;

verus! {

/// Which accumulator elements of a tile reach the output: all of them, those
/// on or below the diagonal, or those strictly below it.
#[derive(Clone, Copy, Debug, PartialEq, Eq, Structural)]
pub enum StoreMask {
    Full,
    Lower,
    StrictLower,
}

/// Whether `mask` keeps the output element `(row, col)`.
pub open spec fn mask_keeps(mask: StoreMask, row: int, col: int) -> bool {
    match mask {
        StoreMask::Full => true,
        StoreMask::Lower => col <= row,
        StoreMask::StrictLower => col < row,
    }
}

/// Position of element `(row, col)` of batch `batch` in a row-major batched
/// `rows x cols` output.
pub open spec fn output_offset(batch: int, rows: int, cols: int, row: int, col: int) -> int {
    (batch * rows + row) * cols + col
}

/// The output of `len` elements holds batch `batch` whole, and every position
/// of that batch fits in 32 bits.
pub open spec fn batch_fits_output(len: int, batch: int, rows: int, cols: int) -> bool {
    &&& (batch + 1) * rows * cols <= len
    &&& (batch + 1) * rows * cols <= u32::MAX
}

/// The output after one accumulator element `value` for `(row, col)` is
/// stored. Out of the output (when bounds are checked) nothing is written.
/// Inside it, an element that `mask` keeps is written; one that it drops is
/// overwritten with `fill`, or left alone when there is no fill.
pub open spec fn stored_one<T>(
    out: Seq<T>,
    value: T,
    fill: Option<T>,
    mask: StoreMask,
    check_bounds: bool,
    batch: int,
    rows: int,
    cols: int,
    row: int,
    col: int,
) -> Seq<T> {
    if check_bounds && !(row < rows && col < cols) {
        out
    } else if mask_keeps(mask, row, col) {
        out.update(output_offset(batch, rows, cols, row, col), value)
    } else {
        match fill {
            Some(zero) => out.update(output_offset(batch, rows, cols, row, col), zero),
            None => out,
        }
    }
}

/// The value that a store writes for an element inside the output.
pub open spec fn masked_value<T>(value: T, fill: Option<T>, mask: StoreMask, row: int, col: int) -> T {
    if mask_keeps(mask, row, col) {
        value
    } else {
        fill.unwrap()
    }
}

/// Stores one accumulator element at `(row, col)` of batch `batch`.
///
/// The plain store (`StoreMask::Full`, with or without the bounds check), the
/// causal stores (`Lower` or `StrictLower` with a zero fill; a negating store
/// passes the negated value) and the score-gradient store (`Lower`, no fill)
/// are all this function.
pub fn store_one<T: Copy>(
    out: &mut Vec<T>,
    value: T,
    fill: Option<T>,
    mask: StoreMask,
    check_bounds: bool,
    batch: u32,
    rows: u32,
    cols: u32,
    coords: (u32, u32),
)
    requires
        batch_fits_output(old(out)@.len() as int, batch as int, rows as int, cols as int),
        !check_bounds ==> coords.0 < rows && coords.1 < cols,
    ensures
        final(out)@ == stored_one(
            old(out)@,
            value,
            fill,
            mask,
            check_bounds,
            batch as int,
            rows as int,
            cols as int,
            coords.0 as int,
            coords.1 as int,
        ),
{
    let (row, col) = coords;
    if !check_bounds || (row < rows && col < cols) {
        let keep = match mask {
            StoreMask::Full => true,
            StoreMask::Lower => col <= row,
            StoreMask::StrictLower => col < row,
        };
        if keep || fill.is_some() {
            proof {
                lemma_row_major_index(batch as int, rows as int, cols as int, row as int, col as int);
            }
            let index = ((batch * rows + row) * cols + col) as usize;
            let written = if keep {
                value
            } else {
                fill.unwrap()
            };
            out.set(index, written);
        }
    }
}

/// Whether the two accumulator elements at `c0` and `c1` go out as one
/// two-element store: they are neighbours in one row of the output, both
/// inside it (when bounds are checked), and, without a fill, both kept.
pub open spec fn paired_store(
    fill_present: bool,
    mask: StoreMask,
    check_bounds: bool,
    rows: int,
    cols: int,
    c0: (int, int),
    c1: (int, int),
) -> bool {
    &&& !check_bounds || (c0.0 < rows && c1.0 == c0.0 && c0.1 + 1 == c1.1 && c1.1 < cols)
    &&& fill_present || mask_keeps(mask, c1.0, c1.1)
}

/// Stores the accumulator elements `lo` at `c0` and `hi` at `c1`: as one
/// two-element store when `paired_store` holds, and otherwise one by one.
/// Either way the output is what the two single stores give.
pub fn store_pair<T: Copy>(
    out: &mut Vec<T>,
    lo: T,
    hi: T,
    fill: Option<T>,
    mask: StoreMask,
    check_bounds: bool,
    batch: u32,
    rows: u32,
    cols: u32,
    c0: (u32, u32),
    c1: (u32, u32),
)
    requires
        batch_fits_output(old(out)@.len() as int, batch as int, rows as int, cols as int),
        !check_bounds ==> c0.0 < rows && c1.0 == c0.0 && c0.1 + 1 == c1.1 && c1.1 < cols,
    ensures
        final(out)@ == stored_one(
            stored_one(
                old(out)@,
                lo,
                fill,
                mask,
                check_bounds,
                batch as int,
                rows as int,
                cols as int,
                c0.0 as int,
                c0.1 as int,
            ),
            hi,
            fill,
            mask,
            check_bounds,
            batch as int,
            rows as int,
            cols as int,
            c1.0 as int,
            c1.1 as int,
        ),
{
    let (row0, col0) = c0;
    let (row1, col1) = c1;
    let keep1 = match mask {
        StoreMask::Full => true,
        StoreMask::Lower => col1 <= row1,
        StoreMask::StrictLower => col1 < row1,
    };
    if (!check_bounds || (row0 < rows && row1 == row0 && col1 > 0 && col0 == col1 - 1 && col1
        < cols)) && (fill.is_some() || keep1) {
        let keep0 = match mask {
            StoreMask::Full => true,
            StoreMask::Lower => col0 <= row0,
            StoreMask::StrictLower => col0 < row0,
        };
        proof {
            lemma_row_major_index(batch as int, rows as int, cols as int, row0 as int, col1 as int);
        }
        let index = ((batch * rows + row0) * cols + col0) as usize;
        let value0 = if keep0 {
            lo
        } else {
            fill.unwrap()
        };
        let value1 = if keep1 {
            hi
        } else {
            fill.unwrap()
        };
        out.set(index, value0);
        out.set(index + 1, value1);
    } else {
        store_one(out, lo, fill, mask, check_bounds, batch, rows, cols, c0);
        proof {
            lemma_stored_one_len(
                old(out)@,
                lo,
                fill,
                mask,
                check_bounds,
                batch as int,
                rows as int,
                cols as int,
                row0 as int,
                col0 as int,
            );
        }
        store_one(out, hi, fill, mask, check_bounds, batch, rows, cols, c1);
    }
}

proof fn lemma_stored_one_len<T>(
    out: Seq<T>,
    value: T,
    fill: Option<T>,
    mask: StoreMask,
    check_bounds: bool,
    batch: int,
    rows: int,
    cols: int,
    row: int,
    col: int,
)
    requires
        batch >= 0,
        row >= 0,
        col >= 0,
        (batch + 1) * rows * cols <= out.len(),
        !check_bounds ==> row < rows && col < cols,
    ensures
        stored_one(out, value, fill, mask, check_bounds, batch, rows, cols, row, col).len()
            == out.len(),
{
    if !check_bounds || (row < rows && col < cols) {
        lemma_row_major_index(batch, rows, cols, row, col);
    }
}

/// A store of batch `batch` leaves every position outside that batch's
/// `rows x cols` block as it was.
pub proof fn lemma_store_stays_in_batch<T>(
    out: Seq<T>,
    value: T,
    fill: Option<T>,
    mask: StoreMask,
    check_bounds: bool,
    batch: int,
    rows: int,
    cols: int,
    row: int,
    col: int,
    index: int,
)
    requires
        batch >= 0,
        rows >= 0,
        cols >= 0,
        row >= 0,
        col >= 0,
        !check_bounds ==> row < rows && col < cols,
        (batch + 1) * rows * cols <= out.len(),
        0 <= index < out.len(),
        index < batch * rows * cols || (batch + 1) * rows * cols <= index,
    ensures
        stored_one(out, value, fill, mask, check_bounds, batch, rows, cols, row, col)[index]
            == out[index],
{
    if !check_bounds || (row < rows && col < cols) {
        lemma_row_major_index(batch, rows, cols, row, col);
        assert(batch * rows * cols <= output_offset(batch, rows, cols, row, col)) by (
        nonlinear_arith)
            requires
                0 <= row,
                0 <= col,
                cols >= 0,
        ;
    }
}

} // verus!
