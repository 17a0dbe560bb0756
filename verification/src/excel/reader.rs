//! Reading a workbook: when to read it again, and how each cell reads as
//! text.

use vstd::prelude::*;
use vstd::string::*;
use crate::text::{
    concat_str, decimal, i64_to_string, push_char, signed_decimal, u64_to_string,
    u64_zero_padded, zero_padded,
};

verus! {

/// A file modification time: a duration from the Unix epoch, after it or
/// before it.
#[derive(Clone, Copy, Debug, PartialEq, Eq, Structural)]
pub struct FileTime {
    pub before_epoch: bool,
    pub secs: u64,
    pub nanos: u32,
}

/// The outcome of loading a workbook.
#[derive(Debug, Clone)]
pub enum LoadResult {
    /// The file has not been modified since it was last read.
    Unchanged,
    /// The text of every row of the first sheet, and the modification time
    /// of the file that was read.
    Loaded { rows: Vec<Vec<String>>, modified: FileTime },
}

/// Whether a workbook last modified at `modified` has to be read, given the
/// modification time of the copy read before (if any): only an identical
/// time spares the read.
pub open spec fn reload_needed(modified: FileTime, last_modified: Option<FileTime>) -> bool {
    last_modified != Some(modified)
}

/// `reload_needed` on executable times.
pub fn needs_reload(modified: FileTime, last_modified: Option<FileTime>) -> (r: bool)
    ensures
        r == reload_needed(modified, last_modified),
{
    match last_modified {
        Some(last) => !(last == modified),
        None => true,
    }
}

/// The name of the sheet a workbook is read from: its first sheet.
pub fn first_sheet(names: &Vec<String>) -> (r: Result<String, String>)
    ensures
        names@.len() > 0 ==> r is Ok && r->Ok_0 == names@[0],
        names@.len() == 0 ==> r is Err && r->Err_0@ == "Aucune feuille trouvée"@,
{
    if names.len() > 0 {
        Ok(names[0].clone())
    } else {
        Err(String::from_str("Aucune feuille trouvée"))
    }
}

/// A calendar date.
#[derive(Clone, Copy, Debug, PartialEq, Eq, Structural)]
pub struct CalendarDate {
    pub year: i32,
    pub month: u32,
    pub day: u32,
}

/// The error values a cell can hold.
#[derive(Clone, Copy, Debug, PartialEq, Eq, Structural)]
pub enum CellError {
    Div0,
    NA,
    Name,
    Null,
    Num,
    Ref,
    Value,
    GettingData,
}

/// What one cell of a sheet holds, as the tool reads it. Numbers with a
/// fractional representation arrive already written out.
#[derive(Clone, Debug)]
pub enum CellData {
    Empty,
    String(String),
    /// A floating-point number, written out in its shortest form.
    Float(String),
    Int(i64),
    Bool(bool),
    /// A date or time serial: the calendar date it stands for, when it
    /// stands for one, and the serial number written out.
    DateTime { date: Option<CalendarDate>, value: String },
    DateTimeIso(String),
    DurationIso(String),
    Error(CellError),
}

/// A year as the format `%Y` writes it: four digits at least, and a sign
/// outside 0..=9999.
pub open spec fn year_text(y: int) -> Seq<char> {
    if 0 <= y <= 9999 {
        zero_padded(y as nat, 4)
    } else if y > 9999 {
        seq!['+'] + decimal(y as nat)
    } else {
        seq!['-'] + zero_padded((-y) as nat, 4)
    }
}

/// A date as the format `%d-%m-%Y` writes it, e.g. `07-03-1916`.
pub open spec fn date_text(d: CalendarDate) -> Seq<char> {
    zero_padded(d.day as nat, 2) + seq!['-'] + zero_padded(d.month as nat, 2) + seq!['-']
        + year_text(d.year as int)
}

/// The name of an error value, as its `Debug` form writes it.
pub open spec fn error_name(e: CellError) -> Seq<char> {
    match e {
        CellError::Div0 => "Div0"@,
        CellError::NA => "NA"@,
        CellError::Name => "Name"@,
        CellError::Null => "Null"@,
        CellError::Num => "Num"@,
        CellError::Ref => "Ref"@,
        CellError::Value => "Value"@,
        CellError::GettingData => "GettingData"@,
    }
}

/// The text of a cell: a date serial that stands for a calendar date reads
/// as that date; every other value reads as itself, an error as
/// `Erreur: ` followed by its name, an empty cell as the empty string.
pub open spec fn cell_text(c: CellData) -> Seq<char> {
    match c {
        CellData::DateTime { date: Some(d), .. } => date_text(d),
        CellData::DateTime { date: None, value } => value@,
        CellData::Empty => Seq::empty(),
        CellData::String(s) => s@,
        CellData::Float(s) => s@,
        CellData::Int(i) => signed_decimal(i as int),
        CellData::Bool(b) => if b { "true"@ } else { "false"@ },
        CellData::DateTimeIso(s) => s@,
        CellData::DurationIso(s) => s@,
        CellData::Error(e) => "Erreur: "@ + error_name(e),
    }
}

fn year_to_string(y: i32) -> (s: String)
    ensures
        s@ == year_text(y as int),
{
    if 0 <= y && y <= 9999 {
        u64_zero_padded(y as u64, 4)
    } else if y > 9999 {
        let mut s = String::new();
        push_char(&mut s, '+');
        let d = u64_to_string(y as u64);
        s.append(d.as_str());
        s
    } else {
        let m: u64 = ((-(y + 1)) as u64) + 1;
        let mut s = String::new();
        push_char(&mut s, '-');
        let d = u64_zero_padded(m, 4);
        s.append(d.as_str());
        s
    }
}

/// `date_text` of an executable date.
pub fn date_to_string(d: &CalendarDate) -> (s: String)
    ensures
        s@ == date_text(*d),
{
    let mut s = u64_zero_padded(d.day as u64, 2);
    push_char(&mut s, '-');
    let m = u64_zero_padded(d.month as u64, 2);
    s.append(m.as_str());
    push_char(&mut s, '-');
    let y = year_to_string(d.year);
    s.append(y.as_str());
    s
}

fn error_to_string(e: CellError) -> (s: String)
    ensures
        s@ == error_name(e),
{
    match e {
        CellError::Div0 => String::from_str("Div0"),
        CellError::NA => String::from_str("NA"),
        CellError::Name => String::from_str("Name"),
        CellError::Null => String::from_str("Null"),
        CellError::Num => String::from_str("Num"),
        CellError::Ref => String::from_str("Ref"),
        CellError::Value => String::from_str("Value"),
        CellError::GettingData => String::from_str("GettingData"),
    }
}

/// The text of one cell, as `cell_text` states it.
pub fn cell_to_string(cell: &CellData) -> (s: String)
    ensures
        s@ == cell_text(*cell),
{
    match cell {
        CellData::DateTime { date: Some(d), .. } => date_to_string(d),
        CellData::DateTime { date: None, value } => value.clone(),
        CellData::Empty => String::new(),
        CellData::String(s) => s.clone(),
        CellData::Float(s) => s.clone(),
        CellData::Int(i) => i64_to_string(*i),
        CellData::Bool(b) => if *b {
            String::from_str("true")
        } else {
            String::from_str("false")
        },
        CellData::DateTimeIso(s) => s.clone(),
        CellData::DurationIso(s) => s.clone(),
        CellData::Error(e) => {
            let name = error_to_string(*e);
            concat_str("Erreur: ", name.as_str())
        },
    }
}

/// The text of every cell of `rows`, row by row.
pub fn rows_to_strings(rows: &Vec<Vec<CellData>>) -> (out: Vec<Vec<String>>)
    ensures
        out@.len() == rows@.len(),
        forall|i: int|
            0 <= i < rows@.len() ==> (#[trigger] out@[i])@.len() == rows@[i]@.len(),
        forall|i: int, j: int|
            0 <= i < rows@.len() && 0 <= j < rows@[i]@.len() ==> (#[trigger] out@[i]@[j])@
                == cell_text(rows@[i]@[j]),
{
    let mut out: Vec<Vec<String>> = Vec::new();
    let mut i: usize = 0;
    while i < rows.len()
        invariant
            i <= rows@.len(),
            out@.len() == i,
            forall|a: int| 0 <= a < i ==> (#[trigger] out@[a])@.len() == rows@[a]@.len(),
            forall|a: int, b: int|
                0 <= a < i && 0 <= b < rows@[a]@.len() ==> (#[trigger] out@[a]@[b])@ == cell_text(
                    rows@[a]@[b],
                ),
        decreases rows@.len() - i,
    {
        let row = &rows[i];
        let mut line: Vec<String> = Vec::new();
        let mut j: usize = 0;
        while j < row.len()
            invariant
                j <= row@.len(),
                row == rows@[i as int],
                i < rows@.len(),
                line@.len() == j,
                forall|b: int| 0 <= b < j ==> (#[trigger] line@[b])@ == cell_text(row@[b]),
            decreases row@.len() - j,
        {
            line.push(cell_to_string(&row[j]));
            j = j + 1;
        }
        out.push(line);
        i = i + 1;
    }
    out
}

} // verus!
