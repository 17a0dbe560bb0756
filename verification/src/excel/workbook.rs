//! The workbook as `umya_spreadsheet` holds it in memory, and the few
//! operations the tool performs on it. Each item here is trusted: its
//! contract states what the crate's source does, and is not proved.
//!
//! A workbook is seen through two names: the text of its cells, keyed by
//! sheet position, column and row (both counted from 1), and the names of
//! its sheets in order.

use vstd::prelude::*;
use umya_spreadsheet::{Workbook, XlsxError};

verus! {

#[verifier::external_type_specification]
#[verifier::external_body]
pub struct ExWorkbook(Workbook);

/// The text each cell of `book` reads as (`Cell::value`), keyed by sheet
/// position, column and row.
pub uninterp spec fn workbook_cells(book: Workbook) -> Map<(int, u32, u32), Seq<char>>;

/// The names of the sheets of `book`, in order.
pub uninterp spec fn workbook_sheet_names(book: Workbook) -> Seq<Seq<char>>;

/// For each sheet of `book`, in order, whether its cells have been read from
/// the file (`Worksheet::is_deserialized`). Reading a whole file with
/// `reader::xlsx::read` reads every sheet.
pub uninterp spec fn workbook_sheets_read(book: Workbook) -> Seq<bool>;

/// The text a cell reads as after `Cell::set_value` gave it `text`: the crate
/// stores the text as a number, a boolean, an error value or a string,
/// depending on what it reads as, and gives it back in that form.
pub uninterp spec fn stored_text(text: Seq<char>) -> Seq<char>;

/// Why a sheet could not be reached.
#[derive(Clone, Copy, Debug, PartialEq, Eq, Structural)]
pub enum SheetError {
    /// There is no such sheet.
    NotFound,
    /// The sheet's cells have not been read from the file yet.
    NotDeserialized,
}

/// The cells after `count` empty rows are inserted at row `at` of sheet
/// `sheet`: every cell of that sheet from row `at` on moves down by `count`
/// rows; all other cells stay.
pub open spec fn rows_inserted(
    cells: Map<(int, u32, u32), Seq<char>>,
    sheet: int,
    at: u32,
    count: u32,
) -> Map<(int, u32, u32), Seq<char>> {
    Map::new(
        |k: (int, u32, u32)|
            if k.0 != sheet || k.2 < at {
                cells.dom().contains(k)
            } else if k.2 >= at + count {
                cells.dom().contains((k.0, k.1, (k.2 - count) as u32))
            } else {
                false
            },
        |k: (int, u32, u32)|
            if k.0 != sheet || k.2 < at {
                cells[k]
            } else {
                cells[(k.0, k.1, (k.2 - count) as u32)]
            },
    )
}

/// Whether no cell of sheet `sheet` at or below row `at` would be pushed
/// past the last row by inserting `count` rows.
pub open spec fn room_below(cells: Map<(int, u32, u32), Seq<char>>, sheet: int, at: u32, count: u32) -> bool {
    forall|k: (int, u32, u32)|
        #![trigger cells.dom().contains(k)]
        cells.dom().contains(k) && k.0 == sheet && k.2 >= at ==> k.2 + count <= u32::MAX
}

/// The position of the first sheet named `name`, if any.
pub open spec fn sheet_position(names: Seq<Seq<char>>, name: Seq<char>) -> Option<int> {
    if exists|i: int| 0 <= i < names.len() && names[i] == name {
        Some(
            choose|i: int|
                0 <= i < names.len() && names[i] == name && forall|j: int|
                    0 <= j < i ==> names[j] != name,
        )
    } else {
        None
    }
}

/// Whether the first sheet named `name`, if there is one, has been read.
pub open spec fn named_sheet_read(book: Workbook, name: Seq<char>) -> bool {
    match sheet_position(workbook_sheet_names(book), name) {
        Some(i) => workbook_sheets_read(book)[i],
        None => true,
    }
}

/// `Workbook::sheet_mut`, then `Worksheet::cell_mut` and `Cell::set_value`
/// on the sheet at position `sheet`, which has been read: the cell at
/// (`col`, `row`) is created if missing, and it takes `value`. The contract
/// claims that this cell then reads as `stored_text(value)`, and that no
/// other cell, no sheet name and no sheet's read state changes. `sheet_mut`
/// fails only for a position past the last sheet, and reads a sheet not read
/// yet from the file (which can panic); `requires` rules both out.
#[verifier::external_body]
pub(crate) fn set_cell_value(book: &mut Workbook, sheet: usize, col: u32, row: u32, value: &str)
    requires
        sheet < workbook_sheet_names(*old(book)).len(),
        workbook_sheets_read(*old(book))[sheet as int],
    ensures
        workbook_sheet_names(*final(book)) == workbook_sheet_names(*old(book)),
        workbook_sheets_read(*final(book)) == workbook_sheets_read(*old(book)),
        workbook_cells(*final(book)) == workbook_cells(*old(book)).insert(
            (sheet as int, col, row),
            stored_text(value@),
        ),
{
    book.sheet_mut(sheet).unwrap().cell_mut((col, row)).set_value(value);
}

/// `Workbook::sheet(0)` then `Worksheet::name`: the name of the first sheet.
/// The contract claims that a workbook without sheets gives `NotFound`; that
/// otherwise the call succeeds exactly when the first sheet's cells have been
/// read, giving that sheet's name, and fails with `NotDeserialized` when they
/// have not.
#[verifier::external_body]
pub(crate) fn first_sheet_name(book: &Workbook) -> (r: Result<String, SheetError>)
    ensures
        r is Ok ==> workbook_sheet_names(*book).len() > 0 && r->Ok_0@ == workbook_sheet_names(
            *book,
        )[0],
        workbook_sheet_names(*book).len() == 0 ==> r is Err && r->Err_0 == SheetError::NotFound,
        workbook_sheet_names(*book).len() > 0 ==> (r is Ok <==> workbook_sheets_read(*book)[0]),
        workbook_sheet_names(*book).len() > 0 && r is Err ==> r->Err_0
            == SheetError::NotDeserialized,
{
    match book.sheet(0) {
        Ok(ws) => Ok(ws.name().to_string()),
        Err(XlsxError::NotDeserialized()) => Err(SheetError::NotDeserialized),
        Err(_) => Err(SheetError::NotFound),
    }
}

/// `Workbook::sheet_by_name_mut` then `Worksheet::insert_new_row`: inserts
/// `count` empty rows at row `at` of the first sheet named `name`, which has
/// been read if it exists (`sheet_by_name_mut` would otherwise read it from
/// the file, which can panic). The contract claims it fails, changing
/// nothing, exactly when no sheet has that name; that sheet names and read
/// states never change; and, when no cell would be pushed past the last row,
/// that the cells move as `rows_inserted` states. Formulas and other sheet
/// parts are adjusted too, which the cell texts do not show.
#[verifier::external_body]
pub(crate) fn insert_rows(book: &mut Workbook, name: &str, at: u32, count: u32) -> (r: Result<(), SheetError>)
    requires
        named_sheet_read(*old(book), name@),
    ensures
        workbook_sheet_names(*final(book)) == workbook_sheet_names(*old(book)),
        workbook_sheets_read(*final(book)) == workbook_sheets_read(*old(book)),
        r is Ok <==> sheet_position(workbook_sheet_names(*old(book)), name@) is Some,
        r is Err ==> r->Err_0 == SheetError::NotFound && workbook_cells(
            *final(book),
        ) == workbook_cells(*old(book)),
        r is Ok && room_below(
            workbook_cells(*old(book)),
            sheet_position(workbook_sheet_names(*old(book)), name@)->0,
            at,
            count,
        ) ==> workbook_cells(*final(book)) == rows_inserted(
            workbook_cells(*old(book)),
            sheet_position(workbook_sheet_names(*old(book)), name@)->0,
            at,
            count,
        ),
{
    match book.sheet_by_name_mut(name) {
        Ok(ws) => {
            ws.insert_new_row(at, count);
            Ok(())
        },
        Err(_) => Err(SheetError::NotFound),
    }
}

/// `Workbook::sheet_by_name_mut`, then `Worksheet::cell_mut` and
/// `Cell::set_value` on the first sheet named `name`, which has been read if
/// it exists (`sheet_by_name_mut` would otherwise read it from the file,
/// which can panic). The contract claims it fails, changing nothing, exactly
/// when no sheet has that name, and otherwise that the cell at (`col`,
/// `row`) of that sheet then reads as `stored_text(value)` with every other
/// cell, every sheet name and every read state unchanged.
#[verifier::external_body]
pub(crate) fn set_named_cell_value(book: &mut Workbook, name: &str, col: u32, row: u32, value: &str) -> (r:
    Result<(), SheetError>)
    requires
        named_sheet_read(*old(book), name@),
    ensures
        workbook_sheet_names(*final(book)) == workbook_sheet_names(*old(book)),
        workbook_sheets_read(*final(book)) == workbook_sheets_read(*old(book)),
        r is Ok <==> sheet_position(workbook_sheet_names(*old(book)), name@) is Some,
        r is Err ==> r->Err_0 == SheetError::NotFound && workbook_cells(
            *final(book),
        ) == workbook_cells(*old(book)),
        r is Ok ==> workbook_cells(*final(book)) == workbook_cells(*old(book)).insert(
            (sheet_position(workbook_sheet_names(*old(book)), name@)->0, col, row),
            stored_text(value@),
        ),
{
    match book.sheet_by_name_mut(name) {
        Ok(ws) => {
            ws.cell_mut((col, row)).set_value(value);
            Ok(())
        },
        Err(_) => Err(SheetError::NotFound),
    }
}

} // verus!
