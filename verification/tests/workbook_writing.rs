use umya_spreadsheet::Workbook;
use wiborade::excel::workbook::SheetError;
use wiborade::excel::writer::{insert_row, update_row, WriteError};

fn text(book: &Workbook, col: u32, row: u32) -> Option<String> {
    book.sheet(0).unwrap().cell((col, row)).map(|c| c.value().to_string())
}

fn strings(v: &[&str]) -> Vec<String> {
    v.iter().map(|s| s.to_string()).collect()
}

#[test]
fn update_row_overwrites_columns_from_one() {
    let mut book = umya_spreadsheet::new_file();
    book.sheet_mut(0).unwrap().cell_mut((1, 3)).set_value("ancien");
    book.sheet_mut(0).unwrap().cell_mut((1, 4)).set_value("voisin");
    let data = strings(&["Lettre", "07-03-1916", "Paris", "Marie", "", "fr", "2"]);
    assert_eq!(update_row(&mut book, 3, &data), Ok(()));
    assert_eq!(text(&book, 1, 3).as_deref(), Some("Lettre"));
    assert_eq!(text(&book, 3, 3).as_deref(), Some("Paris"));
    assert_eq!(text(&book, 7, 3).as_deref(), Some("2"));
    assert_eq!(text(&book, 8, 3), None);
    assert_eq!(text(&book, 1, 4).as_deref(), Some("voisin"));
}

#[test]
fn update_row_without_sheet_fails() {
    let mut book = umya_spreadsheet::new_file_empty_worksheet();
    let r = update_row(&mut book, 1, &strings(&["x"]));
    assert_eq!(r, Err(WriteError::NoSheet));
    assert_eq!(r.unwrap_err().message(), "Aucune feuille dans le classeur");
}

#[test]
fn insert_row_moves_rows_down_and_writes_the_page() {
    let mut book = umya_spreadsheet::new_file();
    book.sheet_mut(0).unwrap().cell_mut((1, 1)).set_value("en-tête");
    book.sheet_mut(0).unwrap().cell_mut((1, 2)).set_value("deuxième");
    book.sheet_mut(0).unwrap().cell_mut((7, 2)).set_value("1");
    let values = strings(&["a", "b", "c", "d", "e", "f", "3"]);
    assert_eq!(insert_row(&mut book, 2, &values), Ok(()));
    assert_eq!(text(&book, 1, 1).as_deref(), Some("en-tête"));
    assert_eq!(text(&book, 1, 3).as_deref(), Some("deuxième"));
    assert_eq!(text(&book, 7, 3).as_deref(), Some("1"));
    assert_eq!(text(&book, 7, 2).as_deref(), Some("3"));
    assert_eq!(text(&book, 1, 2), None);
}

#[test]
fn insert_row_without_page_leaves_an_empty_row() {
    let mut book = umya_spreadsheet::new_file();
    book.sheet_mut(0).unwrap().cell_mut((2, 1)).set_value("x");
    assert_eq!(insert_row(&mut book, 1, &strings(&["a", "b"])), Ok(()));
    assert_eq!(text(&book, 2, 1), None);
    assert_eq!(text(&book, 2, 2).as_deref(), Some("x"));
}

#[test]
fn insert_row_without_sheet_fails() {
    let mut book = umya_spreadsheet::new_file_empty_worksheet();
    let r = insert_row(&mut book, 1, &strings(&["a"]));
    assert_eq!(r, Err(WriteError::Sheet(SheetError::NotFound)));
    assert_eq!(r.unwrap_err().message(), "Not Found");
}

#[test]
fn unread_sheet_error_reads_as_the_crate_words_it() {
    assert_eq!(
        WriteError::Sheet(SheetError::NotDeserialized).message(),
        "Not Deserialized: This Worksheet is Not Deserialized. Please exec to read_sheet(&mut self, index: usize)"
    );
    assert_eq!(WriteError::NoSheet.message(), "Aucune feuille dans le classeur");
}

#[test]
fn unread_first_sheet_is_refused_and_left_alone() {
    let mut bytes = Vec::new();
    umya_spreadsheet::writer::xlsx::write_writer(
        &umya_spreadsheet::new_file(),
        std::io::Cursor::new(&mut bytes),
    )
    .unwrap();
    let mut book = umya_spreadsheet::reader::xlsx::read_reader(std::io::Cursor::new(&bytes), false).unwrap();
    let r = update_row(&mut book, 1, &strings(&["x"]));
    assert_eq!(r, Err(WriteError::Sheet(SheetError::NotDeserialized)));
    let r = insert_row(&mut book, 1, &strings(&["a", "b", "c", "d", "e", "f", "2"]));
    assert_eq!(r, Err(WriteError::Sheet(SheetError::NotDeserialized)));
    let mut read = umya_spreadsheet::reader::xlsx::read_reader(std::io::Cursor::new(&bytes), true).unwrap();
    assert_eq!(update_row(&mut read, 1, &strings(&["x"])), Ok(()));
    assert_eq!(text(&read, 1, 1).as_deref(), Some("x"));
}
