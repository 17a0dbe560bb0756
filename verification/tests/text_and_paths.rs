use wiborade::path::{is_supported_image, is_xlsx, join_path};
use wiborade::text::{
    concat_str, ends_with, i64_to_string, parse_usize_str, str_eq, u64_to_string, u64_zero_padded,
};

#[test]
fn decimal_numerals() {
    assert_eq!(u64_to_string(0), "0");
    assert_eq!(u64_to_string(7), "7");
    assert_eq!(u64_to_string(1916), "1916");
    assert_eq!(u64_to_string(u64::MAX), u64::MAX.to_string());
    assert_eq!(i64_to_string(-42), "-42");
    assert_eq!(i64_to_string(i64::MIN), i64::MIN.to_string());
    assert_eq!(i64_to_string(i64::MAX), i64::MAX.to_string());
}

#[test]
fn zero_padding() {
    assert_eq!(u64_zero_padded(7, 2), "07");
    assert_eq!(u64_zero_padded(31, 2), "31");
    assert_eq!(u64_zero_padded(123, 2), "123");
    assert_eq!(u64_zero_padded(5, 4), "0005");
}

#[test]
fn parsing_row_numbers() {
    assert_eq!(parse_usize_str("12"), Some(12));
    assert_eq!(parse_usize_str("+12"), Some(12));
    assert_eq!(parse_usize_str("007"), Some(7));
    assert_eq!(parse_usize_str(""), None);
    assert_eq!(parse_usize_str("+"), None);
    assert_eq!(parse_usize_str("-1"), None);
    assert_eq!(parse_usize_str("1 "), None);
    assert_eq!(parse_usize_str("12a"), None);
    assert_eq!(parse_usize_str("18446744073709551616"), None);
    for s in ["0", "42", "+9", "", "x", "99999999999999999999999"] {
        assert_eq!(parse_usize_str(s), s.parse::<usize>().ok(), "{s}");
    }
}

#[test]
fn small_string_helpers() {
    assert!(ends_with("liste.xlsx", "xlsx"));
    assert!(!ends_with("liste.XLSX", "xlsx"));
    assert!(ends_with("xlsx", "xlsx"));
    assert!(!ends_with("lsx", "xlsx"));
    assert!(str_eq("été", "été"));
    assert!(!str_eq("a", "ab"));
    assert_eq!(concat_str("list_", "lettres"), "list_lettres");
}

#[test]
fn supported_pictures() {
    for name in ["a.jpg", "A.JPG", "b.jpeg", "c.Png", "d.bmp", "e.gif", "f.webp", "g.tif", "h.TIFF"] {
        assert!(is_supported_image(name, '/'), "{name}");
    }
    for name in ["a.txt", "jpg", ".jpg", "a.jpg.txt", "", "a.", "..", "a/..", "liste.xlsx"] {
        assert!(!is_supported_image(name, '/'), "{name}");
    }
    assert!(is_supported_image("dossier/page1.jpg", '/'));
    assert!(is_supported_image("dossier/page1.jpg/", '/'));
    assert!(is_supported_image("dossier/page1.jpg/.", '/'));
    assert!(!is_supported_image("page.jpg/..", '/'));
    assert!(is_supported_image("a.b.jpg", '/'));
}

#[test]
fn supported_pictures_agree_with_std_paths() {
    let names = [
        "a.jpg", "A.JPG", ".jpg", "a.", "..", ".", "/", "a/..", "x/y.png", "x.png/", "x.png/.",
        "x.png//", "./x.gif", "noext", "a.b.c.tiff", "é.jpeg",
    ];
    for name in names {
        let expected = matches!(
            std::path::Path::new(name)
                .extension()
                .and_then(|e| e.to_str())
                .map(|e| e.to_ascii_lowercase())
                .as_deref(),
            Some("jpg" | "jpeg" | "png" | "bmp" | "gif" | "webp" | "tif" | "tiff")
        );
        assert_eq!(is_supported_image(name, '/'), expected, "{name}");
    }
}

#[test]
fn workbook_names() {
    assert!(is_xlsx("liste.xlsx", '/'));
    assert!(is_xlsx("LISTE.XLSX", '/'));
    assert!(!is_xlsx("liste.xls", '/'));
    assert!(!is_xlsx(".xlsx", '/'));
    assert!(!is_xlsx("page.jpg", '/'));
}

#[test]
fn joining_paths() {
    assert_eq!(join_path("/home/a", "p.jpg", '/'), "/home/a/p.jpg");
    assert_eq!(join_path("/home/a/", "p.jpg", '/'), "/home/a/p.jpg");
    assert_eq!(join_path("", "p.jpg", '/'), "p.jpg");
    assert_eq!(join_path("/home/a", "/tmp/p.jpg", '/'), "/tmp/p.jpg");
    for (dir, name) in [("/home/a", "p.jpg"), ("rel", "x"), ("", "y"), ("/d/", "z"), ("/d", "/abs")] {
        let expected = std::path::Path::new(dir).join(name).to_string_lossy().to_string();
        assert_eq!(join_path(dir, name, '/'), expected);
    }
}

#[test]
fn kind_of_file_ignores_case() {
    for name in [
        "a.jpg", "dir.d/Photo.TiFf", "x.png/", "notes.txt", ".jpg", "a/..", "Lettre.Jpeg", "liste.xlsx", "b.",
    ] {
        let lower = name.to_ascii_lowercase();
        let upper = name.to_ascii_uppercase();
        assert_eq!(is_supported_image(name, '/'), is_supported_image(&lower, '/'), "{name}");
        assert_eq!(is_supported_image(name, '/'), is_supported_image(&upper, '/'), "{name}");
        assert_eq!(is_xlsx(name, '/'), is_xlsx(&lower, '/'), "{name}");
        assert_eq!(is_xlsx(name, '/'), is_xlsx(&upper, '/'), "{name}");
    }
}

#[test]
fn windows_separators() {
    assert_eq!(join_path("C:\\lettres", "a.jpg", '\\'), "C:\\lettres\\a.jpg");
    assert_eq!(join_path("C:\\lettres\\", "a.jpg", '\\'), "C:\\lettres\\a.jpg");
    assert_eq!(join_path("C:/lettres/", "a.jpg", '\\'), "C:/lettres/a.jpg");
    assert!(is_supported_image("dossier\\page1.JPG", '\\'));
    assert!(is_supported_image("x.png\\", '\\'));
    assert!(!is_supported_image("x.png\\", '/'));
    assert!(is_supported_image("x.png/", '\\'));
    assert!(!is_supported_image("page.jpg\\..", '\\'));
    assert!(is_xlsx("dossier\\liste.xlsx", '\\'));
}
