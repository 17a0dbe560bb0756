use wiborade::excel::reader::{
    cell_to_string, first_sheet, needs_reload, rows_to_strings, CalendarDate, CellData, CellError,
    FileTime,
};

fn date(year: i32, month: u32, day: u32) -> CellData {
    CellData::DateTime { date: Some(CalendarDate { year, month, day }), value: "0".to_string() }
}

#[test]
fn cells_read_as_text() {
    assert_eq!(cell_to_string(&CellData::Empty), "");
    assert_eq!(cell_to_string(&CellData::String("Lettre".to_string())), "Lettre");
    assert_eq!(cell_to_string(&CellData::Float("3.5".to_string())), "3.5");
    assert_eq!(cell_to_string(&CellData::Int(-12)), "-12");
    assert_eq!(cell_to_string(&CellData::Int(0)), "0");
    assert_eq!(cell_to_string(&CellData::Bool(true)), "true");
    assert_eq!(cell_to_string(&CellData::Bool(false)), "false");
    assert_eq!(cell_to_string(&CellData::DateTimeIso("1916-03-07".to_string())), "1916-03-07");
    assert_eq!(cell_to_string(&CellData::DurationIso("PT1H".to_string())), "PT1H");
    assert_eq!(cell_to_string(&CellData::Error(CellError::Div0)), "Erreur: Div0");
    assert_eq!(cell_to_string(&CellData::Error(CellError::GettingData)), "Erreur: GettingData");
}

#[test]
fn dates_read_day_month_year() {
    assert_eq!(cell_to_string(&date(1916, 3, 7)), "07-03-1916");
    assert_eq!(cell_to_string(&date(2024, 12, 31)), "31-12-2024");
    assert_eq!(cell_to_string(&date(45, 1, 1)), "01-01-0045");
    assert_eq!(cell_to_string(&date(10000, 1, 1)), "01-01-+10000");
    assert_eq!(cell_to_string(&date(-1, 1, 1)), "01-01--0001");
    let undated = CellData::DateTime { date: None, value: "45000.5".to_string() };
    assert_eq!(cell_to_string(&undated), "45000.5");
}

#[test]
fn reload_only_when_modified() {
    let t = FileTime { before_epoch: false, secs: 1_700_000_000, nanos: 5 };
    let u = FileTime { before_epoch: false, secs: 1_700_000_000, nanos: 6 };
    assert!(needs_reload(t, None));
    assert!(!needs_reload(t, Some(t)));
    assert!(needs_reload(u, Some(t)));
}

#[test]
fn first_sheet_or_error() {
    assert_eq!(first_sheet(&vec!["Feuil1".to_string(), "B".to_string()]), Ok("Feuil1".to_string()));
    assert_eq!(first_sheet(&Vec::new()), Err("Aucune feuille trouvée".to_string()));
}

#[test]
fn rows_of_text() {
    let rows = vec![
        vec![CellData::String("a".to_string()), CellData::Int(3)],
        vec![],
        vec![CellData::Bool(true)],
    ];
    assert_eq!(
        rows_to_strings(&rows),
        vec![vec!["a".to_string(), "3".to_string()], vec![], vec!["true".to_string()]]
    );
}
