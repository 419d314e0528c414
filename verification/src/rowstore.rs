//! Rows of cells: their mathematical value, and how a caller who wants
//! rows of one width makes a row of any width fit it.

use vstd::prelude::*;
use crate::qvariant::{CellValue, QVariant};

verus! {

/// The values of a row of cells.
pub open spec fn cells_view(cells: Seq<QVariant>) -> Seq<CellValue> {
    Seq::new(cells.len(), |j: int| cells[j]@)
}

/// The values of a sequence of rows.
pub open spec fn rows_view(rows: Seq<Vec<QVariant>>) -> Seq<Seq<CellValue>> {
    Seq::new(rows.len(), |i: int| cells_view(rows[i]@))
}

/// The cell of `row` at `column`, or no value where the row is too short.
pub open spec fn cell_or_absent(row: Seq<CellValue>, column: int) -> CellValue {
    if 0 <= column < row.len() {
        row[column]
    } else {
        CellValue::Absent
    }
}

/// `row` made `width` cells wide: cells beyond the width are dropped, and
/// missing cells hold no value. The cells that stay keep their positions.
pub open spec fn fit_row(row: Seq<CellValue>, width: nat) -> Seq<CellValue> {
    Seq::new(width, |column: int| cell_or_absent(row, column))
}

/// Every row of `rows` made `width` cells wide.
pub open spec fn fit_rows(rows: Seq<Seq<CellValue>>, width: nat) -> Seq<Seq<CellValue>> {
    Seq::new(rows.len(), |i: int| fit_row(rows[i], width))
}

/// Whether every row of `rows` is `width` cells wide.
pub open spec fn rows_fit(rows: Seq<Seq<CellValue>>, width: nat) -> bool {
    forall|i: int| 0 <= i < rows.len() ==> (#[trigger] rows[i]).len() == width
}

/// Fitting changes nothing in rows that fit already.
pub proof fn lemma_fit_rows_fixed(rows: Seq<Seq<CellValue>>, width: nat)
    requires
        rows_fit(rows, width),
    ensures
        fit_rows(rows, width) == rows,
{
    assert forall|i: int| 0 <= i < rows.len() implies fit_row(rows[i], width) == rows[i] by {
        assert(rows[i].len() == width);
        assert(fit_row(rows[i], width) =~= rows[i]);
    }
    assert(fit_rows(rows, width) =~= rows);
}

/// Fitting a row changes no read inside the width: each position holds
/// after fitting what a read of it gave before.
pub proof fn lemma_fit_keeps_reads(row: Seq<CellValue>, width: nat, column: int)
    requires
        0 <= column < width,
    ensures
        fit_row(row, width).len() == width,
        cell_or_absent(fit_row(row, width), column) == cell_or_absent(row, column),
{
}

/// Makes `row` exactly `width` cells wide.
pub fn fit_cells(row: Vec<QVariant>, width: usize) -> (fitted: Vec<QVariant>)
    ensures
        cells_view(fitted@) == fit_row(cells_view(row@), width as nat),
{
    let ghost given = cells_view(row@);
    let mut fitted = row;
    fitted.truncate(width);
    while fitted.len() < width
        invariant
            fitted.len() <= width,
            forall|j: int| 0 <= j < fitted.len() ==> (#[trigger] fitted@[j])@ == cell_or_absent(given, j),
            fitted.len() < width ==> fitted.len() >= given.len(),
        decreases width - fitted.len(),
    {
        fitted.push(QVariant::Absent);
    }
    assert(cells_view(fitted@) =~= fit_row(given, width as nat));
    fitted
}

/// Makes every row of `rows` exactly `width` cells wide.
pub fn fit_all(rows: Vec<Vec<QVariant>>, width: usize) -> (fitted: Vec<Vec<QVariant>>)
    ensures
        rows_view(fitted@) == fit_rows(rows_view(rows@), width as nat),
{
    let mut fitted: Vec<Vec<QVariant>> = Vec::new();
    for row in it: rows
        invariant
            it.seq() == rows@,
            fitted@.len() == it.index(),
            forall|i: int| 0 <= i < fitted@.len() ==> cells_view((#[trigger] fitted@[i])@) == fit_row(
                cells_view(rows@[i]@),
                width as nat,
            ),
    {
        let cells = fit_cells(row, width);
        fitted.push(cells);
    }
    assert(rows_view(fitted@) =~= fit_rows(rows_view(rows@), width as nat));
    fitted
}

} // verus!
