//! Writing a row back into the workbook held in memory.

use vstd::prelude::*;
use vstd::string::*;
use umya_spreadsheet::Workbook;
use crate::excel::workbook::{
    first_sheet_name, insert_rows, room_below, rows_inserted, set_cell_value, set_named_cell_value,
    sheet_position, stored_text, workbook_cells, workbook_sheet_names, workbook_sheets_read,
    SheetError,
};
use crate::text::strings_view;

verus! {

/// Why a row could not be written.
#[derive(Clone, Copy, Debug, PartialEq, Eq, Structural)]
pub enum WriteError {
    /// The workbook has no sheet.
    NoSheet,
    /// The first sheet could not be reached.
    Sheet(SheetError),
}

impl WriteError {
    /// The text reported for this error.
    pub fn message(&self) -> (s: String)
        ensures
            s@ == match *self {
                WriteError::NoSheet => "Aucune feuille dans le classeur"@,
                WriteError::Sheet(SheetError::NotFound) => "Not Found"@,
                WriteError::Sheet(SheetError::NotDeserialized) => "Not Deserialized: This Worksheet is Not Deserialized. Please exec to read_sheet(&mut self, index: usize)"@,
            },
    {
        match self {
            WriteError::NoSheet => String::from_str("Aucune feuille dans le classeur"),
            WriteError::Sheet(SheetError::NotFound) => String::from_str("Not Found"),
            WriteError::Sheet(SheetError::NotDeserialized) => String::from_str(
                "Not Deserialized: This Worksheet is Not Deserialized. Please exec to read_sheet(&mut self, index: usize)",
            ),
        }
    }
}

/// The cells after `values` are written into row `row` of sheet `sheet`,
/// value `i` (from 0) into column `i + 1` (as a `u32`), in order.
pub open spec fn row_written(
    cells: Map<(int, u32, u32), Seq<char>>,
    sheet: int,
    row: u32,
    values: Seq<Seq<char>>,
) -> Map<(int, u32, u32), Seq<char>>
    decreases values.len(),
{
    if values.len() == 0 {
        cells
    } else {
        row_written(cells, sheet, row, values.drop_last()).insert(
            (sheet, values.len() as u32, row),
            stored_text(values.last()),
        )
    }
}

/// Overwrites row `row_index` (as a `u32`) of the first sheet of `book` with
/// `data`: value `i` goes to column `i + 1`. Fails, changing nothing, when
/// the workbook has no sheet (`NoSheet`), or when its first sheet's cells
/// have not been read (`NotDeserialized`).
pub fn update_row(book: &mut Workbook, row_index: usize, data: &Vec<String>) -> (r: Result<(), WriteError>)
    ensures
        workbook_sheet_names(*final(book)) == workbook_sheet_names(*old(book)),
        workbook_sheets_read(*final(book)) == workbook_sheets_read(*old(book)),
        workbook_sheet_names(*old(book)).len() == 0 ==> r is Err && r->Err_0 == WriteError::NoSheet
            && workbook_cells(*final(book)) == workbook_cells(*old(book)),
        workbook_sheet_names(*old(book)).len() > 0 && !workbook_sheets_read(*old(book))[0] ==> r is Err
            && r->Err_0 == WriteError::Sheet(SheetError::NotDeserialized) && workbook_cells(
            *final(book),
        ) == workbook_cells(*old(book)),
        workbook_sheet_names(*old(book)).len() > 0 && workbook_sheets_read(*old(book))[0] ==> r is Ok
            && workbook_cells(*final(book)) == row_written(
            workbook_cells(*old(book)),
            0,
            row_index as u32,
            strings_view(data@),
        ),
{
    match first_sheet_name(book) {
        Ok(_) => {},
        Err(SheetError::NotFound) => {
            return Err(WriteError::NoSheet);
        },
        Err(e) => {
            return Err(WriteError::Sheet(e));
        },
    }
    let excel_row = row_index as u32;
    let ghost start = workbook_cells(*book);
    let mut i: usize = 0;
    while i < data.len()
        invariant
            i <= data@.len(),
            workbook_sheet_names(*book) == workbook_sheet_names(*old(book)),
            workbook_sheets_read(*book) == workbook_sheets_read(*old(book)),
            workbook_sheets_read(*book)[0],
            workbook_sheet_names(*book).len() > 0,
            start == workbook_cells(*old(book)),
            excel_row == row_index as u32,
            workbook_cells(*book) == row_written(
                start,
                0,
                excel_row,
                strings_view(data@).subrange(0, i as int),
            ),
        decreases data@.len() - i,
    {
        let column = (i + 1) as u32;
        set_cell_value(book, 0, column, excel_row, data[i].as_str());
        assert(strings_view(data@).subrange(0, i + 1).drop_last() =~= strings_view(data@).subrange(
            0,
            i as int,
        ));
        i = i + 1;
    }
    assert(strings_view(data@).subrange(0, data@.len() as int) =~= strings_view(data@));
    Ok(())
}

/// The cells after a new row is inserted at `row_index` of the first sheet
/// and the seventh value (the page), if any, is written into its column 7.
pub open spec fn row_inserted(
    cells: Map<(int, u32, u32), Seq<char>>,
    row_index: u32,
    values: Seq<Seq<char>>,
) -> Map<(int, u32, u32), Seq<char>> {
    let moved = rows_inserted(cells, 0, row_index, 1);
    if values.len() > 6 {
        moved.insert((0, 7, row_index), stored_text(values[6]))
    } else {
        moved
    }
}

/// Inserts a new row at `row_index` of the first sheet of `book`, and
/// writes the seventh value of `values` (the page), if any, into its
/// column 7. Fails, changing nothing, when the first sheet cannot be
/// reached: `NotFound` when the workbook has no sheet, `NotDeserialized`
/// when the first sheet's cells have not been read; succeeds otherwise.
pub fn insert_row(book: &mut Workbook, row_index: u32, values: &Vec<String>) -> (r: Result<(), WriteError>)
    ensures
        workbook_sheet_names(*final(book)) == workbook_sheet_names(*old(book)),
        workbook_sheet_names(*old(book)).len() == 0 ==> r is Err && r->Err_0 == WriteError::Sheet(
            SheetError::NotFound,
        ),
        workbook_sheet_names(*old(book)).len() > 0 ==> (r is Ok <==> workbook_sheets_read(
            *old(book),
        )[0]),
        workbook_sheet_names(*old(book)).len() > 0 && r is Err ==> r->Err_0 == WriteError::Sheet(
            SheetError::NotDeserialized,
        ),
        workbook_sheets_read(*final(book)) == workbook_sheets_read(*old(book)),
        r is Err ==> workbook_cells(*final(book)) == workbook_cells(*old(book)),
        r is Ok ==> workbook_sheet_names(*old(book)).len() > 0,
        r is Ok && room_below(workbook_cells(*old(book)), 0, row_index, 1) ==> workbook_cells(
            *final(book),
        ) == row_inserted(workbook_cells(*old(book)), row_index, strings_view(values@)),
{
    let name = match first_sheet_name(book) {
        Ok(n) => n,
        Err(e) => {
            return Err(WriteError::Sheet(e));
        },
    };
    let ghost names = workbook_sheet_names(*book);
    proof {
        assert(0 <= 0 < names.len() && names[0] == name@);
        assert(sheet_position(names, name@) == Some(0int)) by {
            let c = choose|i: int|
                0 <= i < names.len() && names[i] == name@ && forall|j: int|
                    0 <= j < i ==> names[j] != name@;
            assert(0 <= c < names.len() && names[c] == name@ && forall|j: int|
                0 <= j < c ==> names[j] != name@);
            if c > 0 {
                assert(names[0] != name@);
            }
        }
    }
    match insert_rows(book, name.as_str(), row_index, 1) {
        Ok(()) => {},
        Err(e) => {
            return Err(WriteError::Sheet(e));
        },
    }
    if values.len() > 6 {
        match set_named_cell_value(book, name.as_str(), 7, row_index, values[6].as_str()) {
            Ok(()) => {},
            Err(e) => {
                return Err(WriteError::Sheet(e));
            },
        }
    }
    Ok(())
}

} // verus!
