//! Properties of the library that span several functions or hold of every
//! input, each stated over the specifications the functions' own contracts
//! use, and proved.

use vstd::prelude::*;
use vstd::string::*;
use crate::excel::reader::{reload_needed, FileTime, LoadResult};
use crate::gui::update::{
    blank_row, can_handle, step, can_change_picture, change_picture, excel_submit, excel_update, form_row, image_stage_loaded,
    load_xlsx, rotate, rows_loaded, should_insert, submit_row_index, submitted_rows,
};
use crate::excel::workbook::stored_text;
use crate::excel::writer::{row_inserted, row_written};
use crate::gui::keys::{focus_move, Key, KeyPress};
use crate::image_ops::{image_pixels, image_size, is_quarter_turn, is_three_quarter_turn, same_picture};
use image::DynamicImage;
use crate::files::{
    is_picture_name, is_workbook_name, listing_of, name_lt, new_workbook_name, ListingPlan,
};
use crate::gui::view::field_text;
use crate::gui::{position_of, GuiView};
use crate::message::{CommandView, ReadOutcome};
use crate::path::{
    extension, file_name, is_image_path, is_separator, is_xlsx_path, last_index_of, last_segment,
    lemma_last_index_of_bounds,
};
use crate::text::{
    ascii_lower, ascii_upper, lower_char, upper_char, all_digits, decimal, digit_char, digit_value, digits_value, is_digit, parse_usize,
    unsigned_digits,
};

verus! {

pub(crate) proof fn lemma_decimal_digits(n: nat)
    ensures
        decimal(n).len() > 0,
        all_digits(decimal(n)),
        digits_value(decimal(n)) == n,
    decreases n,
{
    let d = (n % 10) as nat;
    assert(digit_value(digit_char(d)) == d);
    assert(is_digit(digit_char(d)));
    if n >= 10 {
        lemma_decimal_digits(n / 10);
        let s = decimal(n);
        assert(s.drop_last() =~= decimal(n / 10));
        assert(s.last() == digit_char(d));
        assert(digits_value(s) == digits_value(decimal(n / 10)) * 10 + d);
        assert((n / 10) * 10 + n % 10 == n) by (nonlinear_arith);
        assert forall|i: int| 0 <= i < s.len() implies is_digit(#[trigger] s[i]) by {
            if i < s.len() - 1 {
                assert(s[i] == decimal(n / 10)[i]);
            }
        }
    } else {
        let s = decimal(n);
        assert(s.drop_last() =~= Seq::<char>::empty());
        assert(s.last() == digit_char(d));
        assert(n % 10 == n);
        assert(digits_value(s) == digits_value(s.drop_last()) * 10 + digit_value(s.last()));
    }
}

/// Reading back a row number: the decimal numeral of any `usize` parses
/// back, as `str::parse::<usize>` does, to that number.
pub proof fn law_decimal_parses_back(n: usize)
    ensures
        parse_usize(decimal(n as nat)) == Some(n),
{
    lemma_decimal_digits(n as nat);
    let s = decimal(n as nat);
    assert(is_digit(s[0]));
    assert(unsigned_digits(s) == s);
}


/// A picture that finished loading for an older request is never shown:
/// only the latest load request can change what is on screen.
pub proof fn law_stale_picture_ignored<H>(s: GuiView<H>, generation: u64, handle: Option<H>)
    requires
        generation != s.load_generation,
    ensures
        image_stage_loaded(s, generation, handle).0 == s,
{
}

/// A picture that finished loading for the latest request is shown.
pub proof fn law_latest_picture_shown<H>(s: GuiView<H>, handle: Option<H>)
    requires
        handle is Some,
    ensures
        image_stage_loaded(s, s.load_generation, handle).0.image_handle == handle,
{
}

/// Editing form field `k` (from 1) makes that field show the new text and
/// leaves every other field as it was.
pub proof fn law_field_edit_reads_back<H>(s: GuiView<H>, k: usize, v: Seq<char>, j: usize)
    requires
        1 <= k <= s.current_row.len(),
        j <= s.current_row.len(),
    ensures
        field_text(excel_update(s, k, v).0, k) == v,
        j != k ==> field_text(excel_update(s, k, v).0, j) == field_text(s, j),
{
}

/// A workbook that was just read and has not been modified since is not read
/// again when it is opened anew: the request to read it carries the
/// modification time of the copy read, and that time spares the read.
pub proof fn law_unchanged_workbook_not_reread<H>(
    s: GuiView<H>,
    rows: Vec<Vec<String>>,
    modified: FileTime,
    name: Seq<char>,
)
    ensures
        ({
            let after = rows_loaded(s, ReadOutcome::Read(LoadResult::Loaded { rows, modified })).0;
            match load_xlsx(after, name).1 {
                CommandView::LoadRows { last_modified, .. } => !reload_needed(
                    modified,
                    last_modified,
                ),
                _ => false,
            }
        }),
{
}

/// The picture at position `k` of the listing is described by workbook row
/// `k` (the listing starts with the workbook): picking the picture shows
/// vector row `k - 1` in the form and records `k` as its row number; when
/// the form is submitted unedited, the rows stay as they were and row `k` of
/// the workbook is overwritten with the same values.
pub proof fn law_picture_row_round_trip<H>(s: GuiView<H>, pic: Seq<char>, k: int)
    requires
        can_change_picture(s, pic),
        position_of(s.files, pic) == Some(k),
        k - 1 < s.excel_rows.len(),
        s.excel_rows[k - 1].len() > 6,
        k <= i32::MAX,
    ensures
        ({
            let shown = change_picture(s, pic).0;
            &&& shown.current_row == s.excel_rows[k - 1]
            &&& shown.current_index == k
            &&& excel_submit(shown).0.excel_rows == s.excel_rows
            &&& excel_submit(shown).1 == CommandView::UpdateRow {
                path: s.excel_opened_file,
                row_index: k as usize,
                values: s.excel_rows[k - 1],
            }
        }),
{
    let shown = change_picture(s, pic).0;
    assert(form_row(s.excel_rows[k - 1]) == s.excel_rows[k - 1]);
    assert(shown.current_index as usize == k as usize);
    assert(s.excel_rows.update(k - 1, s.excel_rows[k - 1]) =~= s.excel_rows);
    assert(submitted_rows(shown) == s.excel_rows);
    assert(!should_insert(shown));
    law_decimal_parses_back(k as usize);
    assert(submit_row_index(shown) == k as usize);
}

/// Four quarter turns, or a quarter turn each way, bring the picture back
/// to where it was: the angle is the one it started from, and the decoded
/// picture every turn starts from is unchanged, so the picture shown after
/// the last turn (which `update` states is the decoded one turned by the
/// angle) is the one shown before the first.
pub proof fn law_turns_cancel<H>(s: GuiView<H>)
    requires
        s.angle < 360,
    ensures
        rotate(rotate(rotate(rotate(s, 90).0, 90).0, 90).0, 90).0.angle == s.angle,
        rotate(rotate(s, 90).0, 270).0.angle == s.angle,
        rotate(rotate(s, 270).0, 90).0.angle == s.angle,
        rotate(rotate(rotate(rotate(s, 90).0, 90).0, 90).0, 90).0.image_original
            == s.image_original,
        rotate(rotate(s, 90).0, 270).0.image_original == s.image_original,
        rotate(rotate(s, 270).0, 90).0.image_original == s.image_original,
{
}


/// A folder listing shows its workbooks first and its pictures after them,
/// the pictures sorted by name. Every picture is an entry of the folder
/// whose name ends with `jpg`; every workbook is an entry whose name ends
/// with `xlsx`, or the workbook created for a folder that had none.
pub proof fn law_listing_order(names: Seq<String>, dir_name: Option<String>, plan: ListingPlan, created: bool)
    requires
        plan.planned_from(names, dir_name),
    ensures
        ({
            let out = listing_of(plan, created);
            &&& forall|i: int, j: int|
                0 <= i < j < out.len() && !(#[trigger] out[i]).1 ==> !(#[trigger] out[j]).1
            &&& forall|i: int, j: int|
                0 <= i < j < out.len() && !(#[trigger] out[i]).1 && !(#[trigger] out[j]).1
                    ==> !name_lt(out[j].0@, out[i].0@)
            &&& forall|i: int|
                0 <= i < out.len() && !(#[trigger] out[i]).1 ==> is_picture_name(out[i].0)
                    && names.contains(out[i].0)
            &&& forall|i: int|
                0 <= i < out.len() && (#[trigger] out[i]).1 ==> (is_workbook_name(out[i].0)
                    && names.contains(out[i].0)) || (created && out[i].0@ == new_workbook_name(
                    dir_name,
                ))
        }),
{
    broadcast use vstd::seq_lib::group_filter_ensures, vstd::seq_lib::group_to_multiset_ensures;

    let out = listing_of(plan, created);
    let wb = names.filter(|n: String| is_workbook_name(n));
    let pics = names.filter(|n: String| is_picture_name(n));
    let extra: Seq<(String, bool)> = match plan.new_workbook {
        Some(n) => if created {
            seq![(n, true)]
        } else {
            Seq::empty()
        },
        None => Seq::empty(),
    };
    let head = plan.workbooks@ + extra;
    let pnames = plan.pictures@.map_values(|e: (String, bool)| e.0);
    assert(out == head + plan.pictures@);
    assert forall|i: int| 0 <= i < head.len() implies (#[trigger] head[i]).1 && ((is_workbook_name(
        head[i].0,
    ) && names.contains(head[i].0)) || (created && head[i].0@ == new_workbook_name(dir_name))) by {
        if i < plan.workbooks@.len() {
            assert(head[i] == plan.workbooks@[i]);
            assert(plan.workbooks@[i] == (wb[i], true));
            assert(is_workbook_name(wb[i]));
            assert(wb.contains(wb[i]));
            names.lemma_filter_contains_rev(|n: String| is_workbook_name(n), wb[i]);
        } else {
            assert(head[i] == extra[i - plan.workbooks@.len()]);
        }
    }
    assert forall|i: int| 0 <= i < plan.pictures@.len() implies is_picture_name(
        (#[trigger] plan.pictures@[i]).0,
    ) && names.contains(plan.pictures@[i].0) by {
        let x = plan.pictures@[i].0;
        assert(pnames[i] == x);
        assert(pnames.to_multiset().count(x) > 0);
        assert(pics.to_multiset().count(x) > 0);
        assert(pics.contains(x));
        let k = choose|k: int| 0 <= k < pics.len() && pics[k] == x;
        assert(is_picture_name(pics[k]));
        names.lemma_filter_contains_rev(|n: String| is_picture_name(n), x);
    }
    assert forall|i: int| 0 <= i < out.len() && !(#[trigger] out[i]).1 implies i >= head.len()
        && out[i] == plan.pictures@[i - head.len()] by {
        if i < head.len() {
            assert(out[i] == head[i]);
        }
    }
    assert forall|i: int, j: int|
        0 <= i < j < out.len() && !(#[trigger] out[i]).1 && !(#[trigger] out[j]).1 implies !name_lt(
        out[j].0@,
        out[i].0@,
    ) by {
        assert(pnames[i - head.len()] == out[i].0);
        assert(pnames[j - head.len()] == out[j].0);
    }
    assert forall|i: int, j: int|
        0 <= i < j < out.len() && !(#[trigger] out[i]).1 implies !(#[trigger] out[j]).1 by {
        assert(out[j] == plan.pictures@[j - head.len()]);
    }
    assert forall|i: int|
        0 <= i < out.len() && (#[trigger] out[i]).1 implies (is_workbook_name(out[i].0)
        && names.contains(out[i].0)) || (created && out[i].0@ == new_workbook_name(dir_name)) by {
        if i < head.len() {
            assert(out[i] == head[i]);
        } else {
            assert(out[i] == plan.pictures@[i - head.len()]);
        }
    }
}


/// Whether no two positions of `s` hold names with the same text.
pub open spec fn distinct_names(s: Seq<String>) -> bool {
    forall|i: int, j: int| 0 <= i < s.len() && 0 <= j < s.len() && i != j ==> #[trigger] s[i]@ != #[trigger] s[j]@
}

proof fn lemma_filter_distinct(s: Seq<String>, p: spec_fn(String) -> bool)
    requires
        distinct_names(s),
    ensures
        distinct_names(s.filter(p)),
        forall|k: int| 0 <= k < s.filter(p).len() ==> s.contains(#[trigger] s.filter(p)[k]),
    decreases s.len(),
{
    if s.len() > 0 {
        let pre = s.drop_last();
        let a = s.last();
        assert(pre.push(a) =~= s);
        assert(distinct_names(pre)) by {
            assert forall|i: int, j: int| 0 <= i < pre.len() && 0 <= j < pre.len() && i != j implies #[trigger] pre[i]@
                != #[trigger] pre[j]@ by {
                assert(pre[i] == s[i] && pre[j] == s[j]);
            }
        }
        lemma_filter_distinct(pre, p);
        pre.lemma_filter_push(a, p);
        let f = pre.filter(p);
        assert forall|k: int| 0 <= k < f.len() implies #[trigger] f[k]@ != a@ by {
            let x = f[k];
            assert(pre.contains(x));
            let m = choose|m: int| 0 <= m < pre.len() && pre[m] == x;
            assert(s[m] == x && s[s.len() - 1] == a);
        }
        if p(a) {
            let g = f.push(a);
            assert forall|i: int, j: int| 0 <= i < g.len() && 0 <= j < g.len() && i != j implies #[trigger] g[i]@
                != #[trigger] g[j]@ by {
                if i < f.len() && j < f.len() {
                    assert(g[i] == f[i] && g[j] == f[j]);
                } else if i < f.len() {
                    assert(g[i] == f[i] && g[j] == a);
                } else {
                    assert(g[j] == f[j] && g[i] == a);
                }
            }
            assert forall|k: int| 0 <= k < g.len() implies s.contains(#[trigger] g[k]) by {
                if k < f.len() {
                    assert(g[k] == f[k]);
                    assert(pre.contains(f[k]));
                    let m = choose|m: int| 0 <= m < pre.len() && pre[m] == f[k];
                    assert(s[m] == f[k]);
                } else {
                    assert(s[s.len() - 1] == g[k]);
                }
            }
        } else {
            assert forall|k: int| 0 <= k < f.len() implies s.contains(#[trigger] f[k]) by {
                assert(pre.contains(f[k]));
                let m = choose|m: int| 0 <= m < pre.len() && pre[m] == f[k];
                assert(s[m] == f[k]);
            }
        }
    }
}

/// No name appears twice in a folder listing whose folder entries all have
/// different names: a name is never both a workbook and a picture, sorting
/// the pictures neither adds nor repeats one, and the workbook created is
/// made only when the folder has no workbook.
pub proof fn law_listing_names_distinct(
    names: Seq<String>,
    dir_name: Option<String>,
    plan: ListingPlan,
    created: bool,
)
    requires
        plan.planned_from(names, dir_name),
        distinct_names(names),
    ensures
        forall|i: int, j: int|
            0 <= i < j < listing_of(plan, created).len() ==> (#[trigger] listing_of(plan, created)[i]).0@
                != (#[trigger] listing_of(plan, created)[j]).0@,
{
    broadcast use vstd::seq_lib::group_filter_ensures, vstd::seq_lib::group_to_multiset_ensures;

    let out = listing_of(plan, created);
    let wb = names.filter(|n: String| is_workbook_name(n));
    let pics = names.filter(|n: String| is_picture_name(n));
    lemma_filter_distinct(names, |n: String| is_workbook_name(n));
    lemma_filter_distinct(names, |n: String| is_picture_name(n));
    let pnames = plan.pictures@.map_values(|e: (String, bool)| e.0);
    let extra: Seq<(String, bool)> = match plan.new_workbook {
        Some(n) => if created {
            seq![(n, true)]
        } else {
            Seq::empty()
        },
        None => Seq::empty(),
    };
    let head = plan.workbooks@ + extra;
    assert(out == head + plan.pictures@);
    // The pictures' names are those of `pics`, each once.
    assert(pics.no_duplicates()) by {
        assert forall|i: int, j: int| 0 <= i < pics.len() && 0 <= j < pics.len() && i != j implies pics[i]
            != pics[j] by {
            assert(pics[i]@ != pics[j]@);
        }
    }
    pics.lemma_multiset_has_no_duplicates();
    pnames.lemma_multiset_has_no_duplicates_conv();
    assert forall|k: int| 0 <= k < pnames.len() implies is_picture_name(#[trigger] pnames[k]) && exists|m: int|
        0 <= m < pics.len() && pics[m] == pnames[k] by {
        assert(pnames.to_multiset().count(pnames[k]) > 0);
        assert(pics.contains(pnames[k]));
        let m = choose|m: int| 0 <= m < pics.len() && pics[m] == pnames[k];
        assert(is_picture_name(pics[m]));
    }
    assert forall|i: int, j: int| 0 <= i < j < out.len() implies (#[trigger] out[i]).0@ != (#[trigger] out[j]).0@ by {
        let hl = head.len();
        let wl = plan.workbooks@.len();
        if j < hl {
            if j < wl {
                assert(out[i] == (wb[i], true) && out[j] == (wb[j], true));
            } else {
                assert(wb.len() == 0);
            }
        } else if i >= hl {
            let a = pnames[i - hl];
            let b = pnames[j - hl];
            assert(out[i].0 == a && out[j].0 == b);
            assert(a != b);
            let ma = choose|m: int| 0 <= m < pics.len() && pics[m] == a;
            let mb = choose|m: int| 0 <= m < pics.len() && pics[m] == b;
            assert(ma != mb);
        } else {
            let b = pnames[j - hl];
            assert(out[j].0 == b);
            assert(is_picture_name(b));
            if i < wl {
                assert(out[i] == (wb[i], true));
                assert(is_workbook_name(wb[i]));
            } else {
                let n = plan.new_workbook->0;
                assert(out[i].0 == n);
                assert(n@ == new_workbook_name(dir_name));
                assert(is_workbook_name(n)) by {
                    reveal_strlit("xlsx");
                    reveal_strlit(".xlsx");
                    let d = n@;
                    assert(d.subrange(d.len() - 4, d.len() as int) =~= "xlsx"@);
                }
            }
        }
    }
}

proof fn lemma_row_written_at(
    cells: Map<(int, u32, u32), Seq<char>>,
    row: u32,
    values: Seq<Seq<char>>,
    i: int,
)
    requires
        values.len() < u32::MAX,
        0 <= i < values.len(),
    ensures
        row_written(cells, 0, row, values).dom().contains((0, (i + 1) as u32, row)),
        row_written(cells, 0, row, values)[(0, (i + 1) as u32, row)] == stored_text(values[i]),
    decreases values.len(),
{
    let prev = values.drop_last();
    if i < values.len() - 1 {
        lemma_row_written_at(cells, row, prev, i);
        assert((i + 1) as u32 != values.len() as u32);
    }
}

proof fn lemma_row_written_elsewhere(
    cells: Map<(int, u32, u32), Seq<char>>,
    row: u32,
    values: Seq<Seq<char>>,
    k: (int, u32, u32),
)
    requires
        values.len() < u32::MAX,
        k.0 != 0 || k.2 != row || k.1 == 0 || k.1 > values.len(),
    ensures
        row_written(cells, 0, row, values).dom().contains(k) == cells.dom().contains(k),
        cells.dom().contains(k) ==> row_written(cells, 0, row, values)[k] == cells[k],
    decreases values.len(),
{
    if values.len() > 0 {
        lemma_row_written_elsewhere(cells, row, values.drop_last(), k);
        assert(k != (0int, values.len() as u32, row));
    }
}

/// Writing a row puts value `i` (from 0) in column `i + 1` of that row of
/// the first sheet, and touches no cell outside the columns written.
pub proof fn law_row_write_reads_back(
    cells: Map<(int, u32, u32), Seq<char>>,
    row: u32,
    values: Seq<Seq<char>>,
    i: int,
    k: (int, u32, u32),
)
    requires
        values.len() < u32::MAX,
    ensures
        0 <= i < values.len() ==> row_written(cells, 0, row, values).dom().contains(
            (0, (i + 1) as u32, row),
        ),
        0 <= i < values.len() ==> row_written(cells, 0, row, values)[(0, (i + 1) as u32, row)]
            == stored_text(values[i]),
        (k.0 != 0 || k.2 != row || k.1 == 0 || k.1 > values.len()) ==> row_written(
            cells,
            0,
            row,
            values,
        ).dom().contains(k) == cells.dom().contains(k),
        (k.0 != 0 || k.2 != row || k.1 == 0 || k.1 > values.len()) && cells.dom().contains(k)
            ==> row_written(cells, 0, row, values)[k] == cells[k],
{
    if 0 <= i < values.len() {
        lemma_row_written_at(cells, row, values, i);
    }
    if k.0 != 0 || k.2 != row || k.1 == 0 || k.1 > values.len() {
        lemma_row_written_elsewhere(cells, row, values, k);
    }
}

/// Inserting a row at `r` of the first sheet moves every cell below it one
/// row down, keeps the cells above it, and leaves the new row empty but for
/// the page (column 7) when a page value is given.
pub proof fn law_row_insert_shifts(
    cells: Map<(int, u32, u32), Seq<char>>,
    r: u32,
    values: Seq<Seq<char>>,
    c: u32,
    y: u32,
)
    ensures
        ({
            let after = row_inserted(cells, r, values);
            &&& y < r ==> after.dom().contains((0, c, y)) == cells.dom().contains((0, c, y)) && (
            cells.dom().contains((0, c, y)) ==> after[(0, c, y)] == cells[(0, c, y)])
            &&& r < y ==> after.dom().contains((0, c, y)) == cells.dom().contains(
                (0, c, (y - 1) as u32),
            ) && (cells.dom().contains((0, c, (y - 1) as u32)) ==> after[(0, c, y)] == cells[(
                0,
                c,
                (y - 1) as u32,
            )])
            &&& values.len() > 6 ==> after.dom().contains((0, 7, r)) && after[(0, 7, r)]
                == stored_text(values[6])
            &&& (values.len() <= 6 || c != 7) ==> !after.dom().contains((0, c, r))
        }),
{
}

/// Four quarter turns give back the picture.
pub proof fn law_four_quarter_turns(
    a: DynamicImage,
    b: DynamicImage,
    c: DynamicImage,
    d: DynamicImage,
    e: DynamicImage,
)
    requires
        is_quarter_turn(a, b),
        is_quarter_turn(b, c),
        is_quarter_turn(c, d),
        is_quarter_turn(d, e),
    ensures
        same_picture(a, e),
{
    let (w, h) = image_size(a);
    assert forall|x: u32, y: u32| x < w && y < h implies #[trigger] image_pixels(
        e,
    )[(x, y)] == image_pixels(a)[(x, y)] by {
        let x1 = (h - 1 - y) as u32;
        let y1 = x;
        assert(image_pixels(e)[(x, y)] == image_pixels(d)[(
            y,
            (w - 1 - x) as u32,
        )]);
        assert(image_pixels(d)[(y, (w - 1 - x) as u32)]
            == image_pixels(c)[((w - 1 - x) as u32, (h - 1 - y) as u32)]);
        assert(image_pixels(c)[((w - 1 - x) as u32, (h - 1 - y) as u32)]
            == image_pixels(b)[((h - 1 - y) as u32, x)]);
        assert(image_pixels(b)[((h - 1 - y) as u32, x)]
            == image_pixels(a)[(x, y)]);
    }
}

/// A quarter turn clockwise and one counter-clockwise cancel out.
pub proof fn law_opposite_turns(a: DynamicImage, b: DynamicImage, c: DynamicImage)
    requires
        is_quarter_turn(a, b),
        is_three_quarter_turn(b, c),
    ensures
        same_picture(a, c),
{
    let (w, h) = image_size(a);
    assert forall|x: u32, y: u32| x < w && y < h implies #[trigger] image_pixels(
        c,
    )[(x, y)] == image_pixels(a)[(x, y)] by {
        assert(image_pixels(c)[(x, y)] == image_pixels(b)[(
            (h - 1 - y) as u32,
            x,
        )]);
    }
}

/// Keys of the numeric keypad never move the focus; Tab moves it forward
/// and Shift+Tab back.
pub proof fn law_keys(shift: bool, key: Key)
    ensures
        focus_move(KeyPress { key, numpad: true, shift }) is None,
        focus_move(KeyPress { key: Key::Tab, numpad: false, shift: false }) == Some(true),
        focus_move(KeyPress { key: Key::Tab, numpad: false, shift: true }) == Some(false),
{
}


/// Every submission of the form writes the row being edited into the
/// workbook the rows were read from, as a new row or over an existing one.
pub proof fn law_submit_writes_current_row<H>(s: GuiView<H>)
    ensures
        match excel_submit(s).1 {
            CommandView::InsertRow { path, values, .. } => path == s.excel_opened_file && values
                == s.current_row,
            CommandView::UpdateRow { path, values, .. } => path == s.excel_opened_file && values
                == s.current_row,
            _ => false,
        },
{
}


/// Load requests are numbered in increasing order: no event lowers the
/// number of the latest request.
pub proof fn law_generation_never_decreases<H>(s: GuiView<H>, m: crate::message::Message<H>)
    requires
        can_handle(s, m),
    ensures
        step(s, m).0.load_generation >= s.load_generation,
{
}

/// Showing a picture and picking a picture each number a new load request;
/// no other event changes the number.
pub proof fn law_generation_counts_loads<H>(s: GuiView<H>, m: crate::message::Message<H>)
    requires
        can_handle(s, m),
    ensures
        (m is ChangePicture || m is LoadPressed) ==> step(s, m).0.load_generation
            == s.load_generation + 1,
        !(m is ChangePicture || m is LoadPressed) ==> step(s, m).0.load_generation
            == s.load_generation,
{
}

/// The form always has its seven fields: once a row is being edited, every
/// event leaves a row of at least seven fields, so the form can be drawn.
pub proof fn law_form_keeps_seven_fields<H>(s: GuiView<H>, m: crate::message::Message<H>)
    requires
        can_handle(s, m),
        s.current_row.len() == 0 || s.current_row.len() >= 7,
    ensures
        step(s, m).0.current_row.len() == 0 || step(s, m).0.current_row.len() >= 7,
{
    assert(blank_row().len() == 7);
}


/// Whether `f` maps `/`, the separator `sep` and `.` to themselves and no
/// other character to any of them.
spec fn keeps_marks(f: spec_fn(char) -> char, sep: char) -> bool {
    forall|c: char|
        #![trigger f(c)]
        (f(c) == '/' <==> c == '/') && (f(c) == sep <==> c == sep) && (f(c) == '.' <==> c == '.')
}

proof fn lemma_map_last_segment(p: Seq<char>, f: spec_fn(char) -> char, sep: char)
    requires
        keeps_marks(f, sep),
    ensures
        last_segment(p.map_values(f), sep) == last_segment(p, sep).map_values(f),
    decreases p.len(),
{
    let q = p.map_values(f);
    if p.len() > 0 {
        assert(q.last() == f(p.last()));
        assert(q.drop_last() =~= p.drop_last().map_values(f));
        lemma_map_last_segment(p.drop_last(), f, sep);
        if !is_separator(p.last(), sep) {
            assert(last_segment(p, sep).map_values(f) =~= last_segment(p.drop_last(), sep).map_values(
                f,
            ).push(f(p.last())));
        } else {
            assert(last_segment(p, sep).map_values(f) =~= Seq::<char>::empty());
        }
    } else {
        assert(last_segment(p, sep).map_values(f) =~= Seq::<char>::empty());
    }
}

proof fn lemma_map_dots(s: Seq<char>, f: spec_fn(char) -> char, sep: char)
    requires
        keeps_marks(f, sep),
    ensures
        (s.map_values(f) == seq!['.']) == (s == seq!['.']),
        (s.map_values(f) == seq!['.', '.']) == (s == seq!['.', '.']),
{
    let q = s.map_values(f);
    if s.len() == 1 {
        assert(q[0] == f(s[0]));
        assert((q =~= seq!['.']) == (s =~= seq!['.']));
    }
    if s.len() == 2 {
        assert(q[0] == f(s[0]));
        assert(q[1] == f(s[1]));
        assert((q =~= seq!['.', '.']) == (s =~= seq!['.', '.']));
    }
    if s.len() != 1 {
        assert(q.len() != 1);
        assert(!(s =~= seq!['.']));
        assert(!(q =~= seq!['.']));
    }
    if s.len() != 2 {
        assert(!(s =~= seq!['.', '.']));
        assert(!(q =~= seq!['.', '.']));
    }
}

proof fn lemma_map_file_name(p: Seq<char>, f: spec_fn(char) -> char, sep: char)
    requires
        keeps_marks(f, sep),
    ensures
        file_name(p.map_values(f), sep) == match file_name(p, sep) {
            Some(n) => Some(n.map_values(f)),
            None => None,
        },
    decreases p.len(),
{
    let q = p.map_values(f);
    if p.len() > 0 {
        assert(q.drop_last() =~= p.drop_last().map_values(f));
        assert(q.last() == f(p.last()));
        lemma_map_file_name(p.drop_last(), f, sep);
        lemma_map_last_segment(p, f, sep);
        lemma_map_dots(last_segment(p, sep), f, sep);
    }
}

proof fn lemma_map_last_dot(s: Seq<char>, f: spec_fn(char) -> char, sep: char)
    requires
        keeps_marks(f, sep),
    ensures
        last_index_of(s.map_values(f), '.') == last_index_of(s, '.'),
    decreases s.len(),
{
    if s.len() > 0 {
        let q = s.map_values(f);
        assert(q.drop_last() =~= s.drop_last().map_values(f));
        assert(q.last() == f(s.last()));
        lemma_map_last_dot(s.drop_last(), f, sep);
    }
}

proof fn lemma_map_extension(p: Seq<char>, f: spec_fn(char) -> char, sep: char)
    requires
        keeps_marks(f, sep),
    ensures
        extension(p.map_values(f), sep) == match extension(p, sep) {
            Some(e) => Some(e.map_values(f)),
            None => None,
        },
{
    lemma_map_file_name(p, f, sep);
    match file_name(p, sep) {
        Some(n) => {
            lemma_map_last_dot(n, f, sep);
            lemma_last_index_of_bounds(n, '.');
            let d = last_index_of(n, '.');
            if d > 0 {
                assert(n.map_values(f).subrange(d + 1, n.len() as int) =~= n.subrange(
                    d + 1,
                    n.len() as int,
                ).map_values(f));
            }
        },
        None => {},
    }
}

/// Telling pictures and workbooks apart ignores ASCII case: with any main
/// separator that is not an ASCII letter (`/` and `\` among them), a path
/// names a picture (or a workbook) exactly when its lower-case form does,
/// and exactly when its upper-case form does.
pub proof fn law_kind_ignores_case(p: Seq<char>, sep: char)
    requires
        !('A' <= sep && sep <= 'Z'),
        !('a' <= sep && sep <= 'z'),
    ensures
        is_image_path(ascii_lower(p), sep) == is_image_path(p, sep),
        is_image_path(ascii_upper(p), sep) == is_image_path(p, sep),
        is_xlsx_path(ascii_lower(p), sep) == is_xlsx_path(p, sep),
        is_xlsx_path(ascii_upper(p), sep) == is_xlsx_path(p, sep),
{
    let lo = |c: char| lower_char(c);
    let up = |c: char| upper_char(c);
    assert(keeps_marks(lo, sep));
    assert(keeps_marks(up, sep));
    assert(ascii_lower(p) =~= p.map_values(lo));
    assert(ascii_upper(p) =~= p.map_values(up));
    lemma_map_extension(p, lo, sep);
    lemma_map_extension(p, up, sep);
    match extension(p, sep) {
        Some(e) => {
            assert(ascii_lower(e.map_values(lo)) =~= ascii_lower(e));
            assert(ascii_lower(e.map_values(up)) =~= ascii_lower(e));
        },
        None => {},
    }
}

} // verus!
