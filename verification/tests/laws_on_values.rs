use wiborade::gui::Gui;
use wiborade::message::{Command, Message};
use wiborade::text::{parse_usize_str, u64_to_string};

fn s(x: &str) -> String {
    x.to_string()
}

#[test]
fn row_numbers_parse_back() {
    for n in [0u64, 1, 9, 10, 42, 1000, 65535, u32::MAX as u64, usize::MAX as u64] {
        assert_eq!(parse_usize_str(&u64_to_string(n)), Some(n as usize));
    }
}

#[test]
fn unedited_picture_rewrites_its_own_row() {
    let mut g: Gui<u8> = Gui::new(Some(s("/d")), '/');
    g.files = vec![(s("w.xlsx"), true), (s("p1.jpg"), false), (s("p2.jpg"), false)];
    let rows: Vec<Vec<String>> = vec![
        ["a", "b", "c", "d", "e", "f", "1"].iter().map(|x| s(x)).collect(),
        ["g", "h", "i", "j", "k", "l", "4"].iter().map(|x| s(x)).collect(),
    ];
    g.excel_rows = rows.clone();
    g.excel_opened_file = s("/d/w.xlsx");
    g.update(Message::ChangePicture(s("p2.jpg")));
    match g.update(Message::ExcelSubmit) {
        Command::UpdateRow { path, row_index, values } => {
            assert_eq!(path, "/d/w.xlsx");
            assert_eq!(row_index, 2);
            assert_eq!(values, rows[1]);
        }
        other => panic!("{other:?}"),
    }
    assert_eq!(g.excel_rows, rows);
}

#[test]
fn turns_cancel_out() {
    let mut g: Gui<u8> = Gui::new(None, '/');
    g.image_original = Some(image::DynamicImage::new_rgb8(3, 2));
    assert!(g.accepts(&Message::RotateCw));
    for _ in 0..4 {
        g.update(Message::RotateCw);
    }
    assert_eq!(g.angle, 0);
    g.update(Message::RotateCw);
    g.update(Message::RotateCcw);
    assert_eq!(g.angle, 0);
    g.update(Message::RotateCcw);
    g.update(Message::RotateCw);
    assert_eq!(g.angle, 0);
}

#[test]
fn only_picking_and_showing_pictures_number_loads() {
    let mut g: Gui<u8> = Gui::new(Some(s("/d")), '/');
    g.files = vec![(s("w.xlsx"), true), (s("p1.jpg"), false)];
    let n = g.load_generation;
    g.update(Message::LoadPressed);
    assert_eq!(g.load_generation, n + 1);
    g.update(Message::ChangePicture(s("p1.jpg")));
    assert_eq!(g.load_generation, n + 2);
    g.update(Message::LoadXlsx(s("w.xlsx")));
    g.update(Message::ImageStageLoaded(n + 2, Some(3)));
    g.update(Message::FocusNext);
    g.update(Message::ExcelUpdate(3, s("Lyon")));
    assert_eq!(g.load_generation, n + 2);
    let mut h: Gui<u8> = Gui::new(None, '/');
    h.update(Message::LoadPressed);
    assert_eq!(h.load_generation, 1);
}
