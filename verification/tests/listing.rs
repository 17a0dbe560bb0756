use wiborade::files::{list, name_less, plan_listing, sort_names};

fn names(v: &[&str]) -> Vec<String> {
    v.iter().map(|s| s.to_string()).collect()
}

#[test]
fn workbooks_first_then_sorted_pictures() {
    let entries = names(&["b.jpg", "liste.xlsx", "a.jpg", "notes.txt", "c.JPG", "z.jpg"]);
    let plan = plan_listing(&entries, Some("lettres".to_string()));
    assert_eq!(plan.new_workbook, None);
    let out = list(plan, false);
    assert_eq!(
        out,
        vec![
            ("liste.xlsx".to_string(), true),
            ("a.jpg".to_string(), false),
            ("b.jpg".to_string(), false),
            ("z.jpg".to_string(), false),
        ]
    );
}

#[test]
fn workbooks_keep_folder_order() {
    let entries = names(&["b.xlsx", "a.jpg", "a.xlsx"]);
    let out = list(plan_listing(&entries, None), true);
    assert_eq!(
        out,
        vec![("b.xlsx".to_string(), true), ("a.xlsx".to_string(), true), ("a.jpg".to_string(), false)]
    );
}

#[test]
fn missing_workbook_is_named_after_the_folder() {
    let entries = names(&["2.jpg", "1.jpg"]);
    let plan = plan_listing(&entries, Some("Correspondance".to_string()));
    assert_eq!(plan.new_workbook.as_deref(), Some("list_Correspondance.xlsx"));
    let out = list(plan, true);
    assert_eq!(
        out,
        vec![
            ("list_Correspondance.xlsx".to_string(), true),
            ("1.jpg".to_string(), false),
            ("2.jpg".to_string(), false),
        ]
    );
}

#[test]
fn unnamed_folder_and_failed_creation() {
    let entries = names(&["p.jpg"]);
    let plan = plan_listing(&entries, None);
    assert_eq!(plan.new_workbook.as_deref(), Some("list_sans_nom.xlsx"));
    assert_eq!(list(plan, false), vec![("p.jpg".to_string(), false)]);
}

#[test]
fn empty_folder() {
    let plan = plan_listing(&Vec::new(), Some("vide".to_string()));
    assert_eq!(list(plan, true), vec![("list_vide.xlsx".to_string(), true)]);
}

#[test]
fn name_order_is_string_order() {
    let cases = [("a", "b"), ("a", "ab"), ("B", "a"), ("é", "z"), ("", "a"), ("abc", "abc"), ("z", "y")];
    for (a, b) in cases {
        assert_eq!(name_less(a, b), a < b, "{a} {b}");
    }
}

#[test]
fn sorting_matches_std() {
    let v = names(&["page10.jpg", "page2.jpg", "Page1.jpg", "été.jpg", "page2.jpg", "a.jpg"]);
    let mut expected = v.clone();
    expected.sort();
    assert_eq!(sort_names(v), expected);
}

#[test]
fn listing_never_repeats_a_name() {
    for (entries, dir) in [
        (names(&["b.jpg", "liste.xlsx", "a.jpg", "notes.txt", "c.JPG", "z.jpg", "x.jpg.xlsx"]), Some("d")),
        (names(&["list_d.jpg", "a.jpg", "b.jpg"]), Some("d")),
        (names(&[]), None),
    ] {
        for created in [false, true] {
            let out = list(plan_listing(&entries, dir.map(|d| d.to_string())), created);
            for i in 0..out.len() {
                for j in i + 1..out.len() {
                    assert_ne!(out[i].0, out[j].0);
                }
            }
        }
    }
}
