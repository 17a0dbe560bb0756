use wiborade::excel::reader::{FileTime, LoadResult};
use wiborade::gui::keys::{key_message, Key, KeyPress};
use wiborade::gui::view::file_message;
use wiborade::gui::Gui;
use wiborade::message::{Command, Message, ReadOutcome, WriteOutcome};

type G = Gui<u32>;

fn s(x: &str) -> String {
    x.to_string()
}

fn row(v: &[&str]) -> Vec<String> {
    v.iter().map(|x| x.to_string()).collect()
}

/// A window on folder `/lettres` listing a workbook and three pictures, with
/// two workbook rows read.
fn sample() -> G {
    let mut g = G::new(Some(s("/home/moi")), '/');
    assert!(matches!(g.update(Message::FolderChosen(Some(s("/lettres")))), Command::ListFolder(d) if d == "/lettres"));
    let files = vec![(s("liste.xlsx"), true), (s("a.jpg"), false), (s("b.jpg"), false), (s("c.jpg"), false)];
    assert!(matches!(g.update(Message::FolderListed(files)), Command::PressLoad));
    assert!(matches!(
        g.update(Message::LoadXlsx(s("liste.xlsx"))),
        Command::LoadRows { ref path, last_modified: None } if path == "/lettres/liste.xlsx"
    ));
    let rows = vec![
        row(&["Lettre", "1916", "Paris", "Marie", "", "fr", "1"]),
        row(&["Carte", "1917"]),
    ];
    let t = FileTime { before_epoch: false, secs: 100, nanos: 0 };
    g.update(Message::RowsLoaded(ReadOutcome::Read(LoadResult::Loaded { rows, modified: t })));
    g
}

#[test]
fn fresh_window() {
    let g = G::new(None, '/');
    assert_eq!(g.current_index, -1);
    assert_eq!(g.current_dir, None);
    assert!(g.files.is_empty());
    assert_eq!(g.load_generation, 0);
    let h = G::new(Some(s("/home/moi")), '/');
    assert_eq!(h.current_dir.as_deref(), Some("/home/moi"));
}

#[test]
fn choosing_a_folder() {
    let g = sample();
    assert_eq!(g.current_dir.as_deref(), Some("/lettres"));
    assert_eq!(g.current_dir_path, "/lettres");
    assert_eq!(g.excel_opened_file, "/lettres/liste.xlsx");
    assert_eq!(g.selected_file, "/lettres/liste.xlsx");
    assert_eq!(g.excel_rows.len(), 2);
    assert_eq!(g.last_modified, Some(FileTime { before_epoch: false, secs: 100, nanos: 0 }));
    let mut g = g;
    assert!(matches!(g.update(Message::FolderChosen(None)), Command::ReadHomeDir));
    assert!(matches!(g.update(Message::HomeDir(None)), Command::Idle));
    assert_eq!(g.current_dir, None);
}

#[test]
fn reopening_an_unchanged_workbook() {
    let mut g = sample();
    let cmd = g.update(Message::LoadXlsx(s("liste.xlsx")));
    let t = FileTime { before_epoch: false, secs: 100, nanos: 0 };
    assert!(matches!(cmd, Command::LoadRows { last_modified: Some(m), .. } if m == t));
    g.update(Message::RowsLoaded(ReadOutcome::Read(LoadResult::Unchanged)));
    assert_eq!(g.excel_rows.len(), 2);
    g.update(Message::RowsLoaded(ReadOutcome::Failed(s("illisible"))));
    assert_eq!(g.excel_rows.len(), 2);
}

#[test]
fn load_pressed_shows_the_first_picture() {
    let mut g = sample();
    let before = g.load_generation;
    match g.update(Message::LoadPressed) {
        Command::LoadImage { generation, path } => {
            assert_eq!(generation, before + 1);
            assert_eq!(path, "/lettres/a.jpg");
        }
        other => panic!("{other:?}"),
    }
    let mut empty = G::new(Some(s("/vide")), '/');
    assert!(matches!(empty.update(Message::LoadPressed), Command::LoadImage { generation: 1, ref path } if path.is_empty()));
    let mut nowhere = G::new(None, '/');
    assert!(matches!(nowhere.update(Message::LoadPressed), Command::Idle));
    assert_eq!(nowhere.load_generation, 1);
}

#[test]
fn picture_rows_follow_the_listing() {
    let mut g = sample();
    match g.update(Message::ChangePicture(s("a.jpg"))) {
        Command::LoadImage { path, .. } => assert_eq!(path, "/lettres/a.jpg"),
        other => panic!("{other:?}"),
    }
    assert_eq!(g.current_index, 1);
    assert_eq!(g.current_index_str, "1");
    assert_eq!(g.current_row, row(&["Lettre", "1916", "Paris", "Marie", "", "fr", "1"]));
    assert_eq!(g.content, "1");
    assert_eq!(g.selected_file, "a.jpg");
    assert!(g.image_handle.is_none());
}

#[test]
fn picture_without_row_gets_an_empty_form() {
    let mut g = sample();
    let content = g.content.clone();
    g.update(Message::ChangePicture(s("c.jpg")));
    assert_eq!(g.current_index, 3);
    assert_eq!(g.current_index_str, "3");
    assert_eq!(g.current_row, vec![String::new(); 7]);
    assert_eq!(g.content, content);
    let index = g.current_index;
    g.update(Message::ChangePicture(s("inconnu.jpg")));
    assert_eq!(g.current_index, index);
    assert_eq!(g.current_row, vec![String::new(); 7]);
    assert_eq!(g.selected_file, "inconnu.jpg");
}

#[test]
fn page_one_is_added_to_six_field_rows() {
    let mut g = sample();
    g.excel_rows[1] = row(&["Carte", "1917", "Lyon", "Paul", "", "fr"]);
    g.update(Message::ChangePicture(s("b.jpg")));
    assert_eq!(g.current_row, row(&["Carte", "1917", "Lyon", "Paul", "", "fr", "1"]));
    assert_eq!(g.content, "1");
}

#[test]
fn pictures_that_would_fail_are_refused() {
    let g = sample();
    assert!(!g.can_select_picture("b.jpg"));
    assert!(!g.can_select_picture("liste.xlsx"));
    assert!(g.can_select_picture("a.jpg"));
    assert!(g.can_select_picture("c.jpg"));
    assert!(g.can_select_picture("inconnu.jpg"));
    assert!(!g.accepts(&Message::ChangePicture(s("b.jpg"))));
    assert!(g.accepts(&Message::ExcelSubmit));
    assert!(g.accepts(&Message::LoadPressed));
    let mut h = sample();
    h.current_index = 0;
    assert!(!h.accepts(&Message::ExcelSubmit));
}

#[test]
fn missing_rows_and_files_are_reported() {
    let mut g = sample();
    assert_eq!(g.get_row_for_file("inconnu.jpg"), Err(s("Fichier 'inconnu.jpg' introuvable dans files")));
    assert_eq!(g.get_row_for_file("c.jpg"), Err(s("Aucune ligne à l'index 2 dans excel_rows")));
    assert_eq!(g.current_index, 3);
    assert_eq!(g.get_row_for_file("a.jpg").unwrap()[0], "Lettre");
}

#[test]
fn editing_the_form() {
    let mut g = sample();
    g.update(Message::ChangePicture(s("a.jpg")));
    g.update(Message::ExcelUpdate(3, s("Lyon")));
    assert_eq!(g.current_row[2], "Lyon");
    assert_eq!(g.field_value(3), "Lyon");
    g.update(Message::ExcelUpdate(0, s("ignoré")));
    assert_eq!(g.field_value(0), "1");
    assert!(!g.accepts(&Message::ExcelUpdate(9, s("x"))));
}

#[test]
fn submitting_an_unchanged_page_updates_the_row() {
    let mut g = sample();
    g.update(Message::ChangePicture(s("a.jpg")));
    g.update(Message::ExcelUpdate(3, s("Lyon")));
    match g.update(Message::ExcelSubmit) {
        Command::UpdateRow { path, row_index, values } => {
            assert_eq!(path, "/lettres/liste.xlsx");
            assert_eq!(row_index, 1);
            assert_eq!(values[2], "Lyon");
        }
        other => panic!("{other:?}"),
    }
    assert_eq!(g.excel_rows[0][2], "Lyon");
}

#[test]
fn submitting_the_next_row_appends_and_inserts_it() {
    let mut g = sample();
    g.update(Message::ChangePicture(s("c.jpg")));
    g.update(Message::ExcelUpdate(7, s("2")));
    match g.update(Message::ExcelSubmit) {
        Command::InsertRow { insert_at, values, .. } => {
            assert_eq!(insert_at, 3);
            assert_eq!(values[6], "2");
        }
        other => panic!("{other:?}"),
    }
    assert_eq!(g.excel_rows.len(), 3);
}

#[test]
fn changing_the_page_of_a_stored_row_inserts() {
    let mut g = sample();
    g.excel_rows[0][6] = s("3");
    g.update(Message::ChangePicture(s("a.jpg")));
    assert_eq!(g.current_row[6], "3");
    g.update(Message::ExcelUpdate(7, s("5")));
    match g.update(Message::ExcelSubmit) {
        Command::InsertRow { path, insert_at, values } => {
            assert_eq!(path, "/lettres/liste.xlsx");
            assert_eq!(insert_at, 1);
            assert_eq!(values[6], "5");
        }
        other => panic!("{other:?}"),
    }
    assert_eq!(g.excel_rows[0][6], "5");
    let mut h = sample();
    h.excel_rows[0][6] = s("3");
    h.update(Message::ChangePicture(s("a.jpg")));
    h.update(Message::ExcelUpdate(2, s("1920")));
    assert!(matches!(h.update(Message::ExcelSubmit), Command::UpdateRow { row_index: 1, .. }));
}

#[test]
fn submitting_a_new_page_of_an_unlisted_row_inserts() {
    let mut g = sample();
    g.excel_rows.truncate(1);
    g.update(Message::ChangePicture(s("c.jpg")));
    g.update(Message::ExcelUpdate(7, s("2")));
    match g.update(Message::ExcelSubmit) {
        Command::InsertRow { path, insert_at, values } => {
            assert_eq!(path, "/lettres/liste.xlsx");
            assert_eq!(insert_at, 3);
            assert_eq!(values[6], "2");
        }
        other => panic!("{other:?}"),
    }
    assert_eq!(g.excel_rows.len(), 2);
    assert_eq!(g.excel_rows[1][6], "2");
}

#[test]
fn submitting_before_any_picture() {
    let mut g = sample();
    g.current_row = row(&["a", "b", "c", "d", "e", "f", "5"]);
    match g.update(Message::ExcelSubmit) {
        Command::InsertRow { insert_at, .. } => assert_eq!(insert_at, 0),
        other => panic!("{other:?}"),
    }
    assert_eq!(g.excel_rows.len(), 3);
    let mut h = sample();
    h.current_row = row(&["a", "b", "c", "d", "e", "f", "1"]);
    assert!(matches!(h.update(Message::ExcelSubmit), Command::UpdateRow { row_index: 0, .. }));
}

#[test]
fn stale_pictures_are_ignored() {
    let mut g = sample();
    g.update(Message::ChangePicture(s("a.jpg")));
    let current = g.load_generation;
    g.update(Message::ImageStageLoaded(current - 1, Some(7)));
    assert_eq!(g.image_handle, None);
    g.update(Message::ImageStageLoaded(current, None));
    assert_eq!(g.image_handle, None);
    g.update(Message::ImageStageLoaded(current, Some(9)));
    assert_eq!(g.image_handle, Some(9));
    assert!(g.shows_form());
}

/// A picture 3 pixels wide and 2 high whose pixels all differ.
fn picture() -> image::DynamicImage {
    let mut img = image::RgbImage::new(3, 2);
    for (x, y, p) in img.enumerate_pixels_mut() {
        *p = image::Rgb([x as u8, y as u8, (10 * x + y) as u8]);
    }
    image::DynamicImage::ImageRgb8(img)
}

fn shown(c: Command) -> (u32, image::DynamicImage) {
    match c {
        Command::ShowRotated { angle, picture } => (angle, picture),
        other => panic!("{other:?}"),
    }
}

#[test]
fn turning_the_picture() {
    let mut g = sample();
    g.update(Message::ChangePicture(s("a.jpg")));
    assert!(!g.accepts(&Message::RotateCw));
    let current = g.load_generation;
    g.update(Message::PictureDecoded(current - 1, Some(picture())));
    assert!(g.image_original.is_none());
    g.update(Message::PictureDecoded(current, Some(picture())));
    assert!(g.accepts(&Message::RotateCw));
    assert_eq!(g.exif_orientation(), 1);
    let (a, p) = shown(g.update(Message::RotateCw));
    assert_eq!(a, 90);
    assert_eq!((p.width(), p.height()), (2, 3));
    assert_eq!(p.to_rgb8(), image::imageops::rotate90(&picture().to_rgb8()));
    assert_eq!(g.exif_orientation(), 6);
    g.update(Message::RotateCw);
    assert_eq!(g.exif_orientation(), 3);
    let (a, p) = shown(g.update(Message::RotateCcw));
    assert_eq!(a, 90);
    assert_eq!(p.to_rgb8(), image::imageops::rotate90(&picture().to_rgb8()));
    let (a, p) = shown(g.update(Message::RotateCcw));
    assert_eq!(a, 0);
    assert_eq!(p.to_rgb8(), picture().to_rgb8());
    let (a, p) = shown(g.update(Message::RotateCcw));
    assert_eq!(a, 270);
    assert_eq!(p.to_rgb8(), image::imageops::rotate270(&picture().to_rgb8()));
    assert_eq!(g.exif_orientation(), 8);
    assert!(g.accepts(&Message::ChangePicture(s("c.jpg"))));
    g.update(Message::ChangePicture(s("c.jpg")));
    assert!(g.image_original.is_none());
}

#[test]
fn other_messages() {
    let mut g = sample();
    assert!(matches!(g.update(Message::ChooseFolder), Command::ChooseFolder));
    assert!(matches!(g.update(Message::FocusNext), Command::FocusNext));
    assert!(matches!(g.update(Message::FocusPrevious), Command::FocusPrevious));
    assert!(matches!(g.update(Message::ExcelUpdated(WriteOutcome::Written)), Command::Idle));
    assert!(matches!(g.update(Message::ExcelUpdated(WriteOutcome::Failed(s("x")))), Command::Idle));
}

#[test]
fn listing_entries_send_the_right_event() {
    assert!(matches!(file_message::<u32>(&s("liste.XLSX"), '/'), Message::LoadXlsx(n) if n == "liste.XLSX"));
    assert!(matches!(file_message::<u32>(&s("a.jpg"), '/'), Message::ChangePicture(n) if n == "a.jpg"));
    let mut g = sample();
    assert!(g.is_selected(&s("liste.xlsx")));
    assert!(!g.is_selected(&s("a.jpg")));
    g.update(Message::ChangePicture(s("a.jpg")));
    assert!(g.is_selected(&s("a.jpg")));
    assert!(!g.is_selected(&s("b.jpg")));
    assert!(!g.is_selected(&s("liste.xlsx")));
}

#[test]
fn keyboard_navigation() {
    let press = |key, numpad, shift| KeyPress { key, numpad, shift };
    assert!(matches!(key_message::<u32>(press(Key::Tab, false, false)), Some(Message::FocusNext)));
    assert!(matches!(key_message::<u32>(press(Key::Tab, false, true)), Some(Message::FocusPrevious)));
    assert!(matches!(key_message::<u32>(press(Key::ArrowDown, false, true)), Some(Message::FocusNext)));
    assert!(matches!(key_message::<u32>(press(Key::ArrowUp, false, false)), Some(Message::FocusPrevious)));
    assert!(key_message::<u32>(press(Key::ArrowUp, true, false)).is_none());
    assert!(key_message::<u32>(press(Key::Other, false, false)).is_none());
}
