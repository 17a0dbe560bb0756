//! What each event does to the window, stated over its inputs and results:
//! which load request a picked picture carries, when a submission inserts,
//! what rows are kept after a workbook is read, where the keys move the
//! focus, and what opening a workbook hides. Each is proved of the step
//! functions that the handlers' contracts use.

use vstd::prelude::*;
use vstd::string::*;
use crate::excel::reader::{FileTime, LoadResult};
use crate::gui::keys::{focus_move, Key, KeyPress};
use crate::gui::update::{
    can_change_picture, change_picture, dir_or_empty, excel_submit, excel_update, first_picture,
    folder_chosen, folder_listed, home_dir, image_stage_loaded, load_pressed, load_xlsx,
    picture_decoded, rotate, rows_loaded, submit_row_index,
};
use crate::gui::{first_where, is_first_where, position_of, GuiView};
use crate::laws::law_decimal_parses_back;
use crate::message::{CommandView, ReadOutcome};
use crate::path::{is_image_path, joined};
use crate::text::{decimal, parse_usize, strings_view};

verus! {

proof fn lemma_first_where_exists(files: Seq<(Seq<char>, bool)>, p: spec_fn(Seq<char>) -> bool, j: int)
    requires
        0 <= j < files.len(),
        p(files[j].0),
    ensures
        first_where(files, p) is Some,
    decreases j,
{
    if exists|i: int| 0 <= i < j && p(files[i].0) {
        let i = choose|i: int| 0 <= i < j && p(files[i].0);
        lemma_first_where_exists(files, p, i);
    } else {
        assert(is_first_where(files, p, j));
    }
}

/// Picking a picture numbers a new load request and asks for the picture
/// under that number, which is the latest one: the picture that comes back
/// for it is shown, and one that comes back for any earlier request is not.
/// The picture shown so far is hidden, the entry is highlighted, and the
/// folder, listing and rows read are left as they were.
pub proof fn law_picked_picture_is_requested_and_shown<H>(
    s: GuiView<H>,
    pic: Seq<char>,
    h: H,
    older: u64,
    other: Option<H>,
)
    requires
        can_change_picture(s, pic),
        older < s.load_generation + 1,
    ensures
        ({
            let (st, c) = change_picture(s, pic);
            &&& st.load_generation == s.load_generation + 1
            &&& c == CommandView::LoadImage {
                generation: st.load_generation,
                path: joined(dir_or_empty(s.current_dir), pic, s.separator),
            }
            &&& st.image_handle is None
            &&& st.image_original is None
            &&& st.selected_entry == pic
            &&& st.selected_file == pic
            &&& image_stage_loaded(st, st.load_generation, Some(h)).0.image_handle == Some(h)
            &&& image_stage_loaded(st, older, other).0 == st
            &&& st.excel_rows == s.excel_rows
            &&& st.files == s.files
            &&& st.current_dir == s.current_dir
            &&& st.excel_opened_file == s.excel_opened_file
            &&& st.last_modified == s.last_modified
            &&& st.angle == s.angle
        }),
{
}

/// The form a picked picture shows: a picture at position `k` of the
/// listing becomes the current index `k` (as an `i32`), written out so that it reads back
/// as `k`; its form holds its stored row `k - 1`, with page "1" added to a
/// row that has no page, or seven empty fields when there is no such row. A
/// picture missing from the listing gets seven empty fields and leaves the
/// index as it was.
pub proof fn law_picked_picture_form<H>(s: GuiView<H>, pic: Seq<char>)
    requires
        can_change_picture(s, pic),
    ensures
        ({
            let st = change_picture(s, pic).0;
            match position_of(s.files, pic) {
                None => {
                    &&& st.current_index == s.current_index
                    &&& st.current_index_str == s.current_index_str
                    &&& st.current_row.len() == 7
                    &&& forall|i: int| 0 <= i < 7 ==> (#[trigger] st.current_row[i]).len() == 0
                },
                Some(k) => {
                    &&& st.current_index == k as i32
                    &&& (k <= i32::MAX ==> st.current_index == k)
                    &&& (k <= usize::MAX ==> parse_usize(st.current_index_str) == Some(k as usize))
                    &&& if k - 1 < s.excel_rows.len() {
                        let row = s.excel_rows[k - 1];
                        &&& st.current_row.len() >= 7
                        &&& forall|i: int| 0 <= i < row.len() ==> #[trigger] st.current_row[i] == row[i]
                        &&& row.len() < 7 ==> st.current_row[6] == "1"@
                        &&& st.content == st.current_row[6]
                    } else {
                        &&& st.current_row.len() == 7
                        &&& forall|i: int| 0 <= i < 7 ==> (#[trigger] st.current_row[i]).len() == 0
                    }
                },
            }
        }),
{
    match position_of(s.files, pic) {
        None => {},
        Some(k) => {
            if 0 <= k <= usize::MAX {
                law_decimal_parses_back(k as usize);
            }
        },
    }
}

/// A submission inserts a new row only when the page field is set to
/// something other than empty and "1", and differs from the page stored in
/// the row being edited; an empty page, page "1", a form without a page
/// field, or an unchanged page always overwrites the row. When the page is
/// set and differs, it inserts. Either way the edited values go to the
/// workbook the rows came from, at the row number shown in the form.
pub proof fn law_when_a_submission_inserts<H>(s: GuiView<H>, n: usize)
    ensures
        ({
            let c = excel_submit(s).1;
            let cur = s.current_row;
            let prev_i = (s.current_index - 1) as usize;
            let stored_page: Option<Seq<char>> = if prev_i < s.excel_rows.len()
                && s.excel_rows[prev_i as int].len() > 6 {
                Some(s.excel_rows[prev_i as int][6])
            } else {
                None
            };
            &&& (cur.len() <= 6 || cur[6].len() == 0 || cur[6] == "1"@ || stored_page == Some(
                cur[6],
            )) ==> c == CommandView::UpdateRow {
                path: s.excel_opened_file,
                row_index: submit_row_index(s),
                values: cur,
            }
            &&& (cur.len() > 6 && cur[6].len() > 0 && cur[6] != "1"@ && stored_page != Some(
                cur[6],
            )) ==> c == CommandView::InsertRow {
                path: s.excel_opened_file,
                insert_at: submit_row_index(s) as u32,
                values: cur,
            }
            &&& s.current_index_str == decimal(n as nat) ==> submit_row_index(s) == n
        }),
{
    law_decimal_parses_back(n);
}

/// A submission keeps the edited row in the rows held: it replaces row
/// `current_index` (counted from 1) when there is one, and is added after
/// the last row otherwise; no other row changes.
pub proof fn law_submission_keeps_the_row<H>(s: GuiView<H>)
    requires
        s.current_index != 0,
        s.current_index != i32::MIN,
    ensures
        ({
            let rows = excel_submit(s).0.excel_rows;
            let k = s.current_index;
            &&& 1 <= k <= s.excel_rows.len() ==> rows.len() == s.excel_rows.len() && rows[k - 1]
                == s.current_row && forall|i: int|
                0 <= i < rows.len() && i != k - 1 ==> #[trigger] rows[i] == s.excel_rows[i]
            &&& k > s.excel_rows.len() ==> rows == s.excel_rows.push(s.current_row)
            &&& excel_submit(s).0.current_row == s.current_row
            &&& excel_submit(s).0.files == s.files
        }),
{
    let k = s.current_index;
    let idx = k as usize;
    if 1 <= k {
        assert(idx as int == k as int);
    }
}

/// After a workbook is read, the rows held are exactly the rows read, row
/// by row, whatever was held before; their modification time is kept and
/// they are known to come from the file that was selected. An unchanged
/// file or a failed read changes nothing.
pub proof fn law_rows_read_replace_rows_held<H>(
    s: GuiView<H>,
    rows: Vec<Vec<String>>,
    modified: FileTime,
    other: ReadOutcome,
)
    requires
        !(other matches ReadOutcome::Read(LoadResult::Loaded { .. })),
    ensures
        ({
            let st = rows_loaded(s, ReadOutcome::Read(LoadResult::Loaded { rows, modified })).0;
            &&& st.excel_rows.len() == rows@.len()
            &&& forall|i: int| 0 <= i < rows@.len() ==> #[trigger] st.excel_rows[i] == strings_view(rows@[i]@)
            &&& st.last_modified == Some(modified)
            &&& st.excel_opened_file == s.selected_file
            &&& st.current_row == s.current_row
            &&& st.image_handle == s.image_handle
        }),
        rows_loaded(s, other).0 == s,
{
}

/// Opening a workbook from the listing hides the picture (so the window
/// shows the workbook's rows), highlights the entry, and asks for the file
/// at the entry's path in the folder, passing the modification time of the
/// rows held; once read, the rows are known to come from that path.
pub proof fn law_opening_a_workbook<H>(s: GuiView<H>, name: Seq<char>, rows: Vec<Vec<String>>, modified: FileTime)
    ensures
        ({
            let (st, c) = load_xlsx(s, name);
            let path = joined(dir_or_empty(s.current_dir), name, s.separator);
            &&& st.image_handle is None
            &&& !(st.image_handle is Some && st.current_row.len() > 0)
            &&& st.selected_entry == name
            &&& c == CommandView::LoadRows { path, last_modified: s.last_modified }
            &&& rows_loaded(st, ReadOutcome::Read(LoadResult::Loaded { rows, modified })).0.excel_opened_file
                == path
            &&& st.excel_rows == s.excel_rows
            &&& st.current_row == s.current_row
        }),
{
}

/// Off the numeric keypad, Tab moves the focus forward and Shift+Tab back;
/// the down arrow moves it forward and the up arrow back, with or without
/// Shift; other keys do not move it. Keys of the keypad never move it.
pub proof fn law_focus_keys(shift: bool, key: Key)
    ensures
        focus_move(KeyPress { key: Key::ArrowDown, numpad: false, shift }) == Some(true),
        focus_move(KeyPress { key: Key::ArrowUp, numpad: false, shift }) == Some(false),
        focus_move(KeyPress { key: Key::Tab, numpad: false, shift }) == Some(!shift),
        focus_move(KeyPress { key: Key::Other, numpad: false, shift }) is None,
        focus_move(KeyPress { key, numpad: true, shift }) is None,
{
}

/// Choosing a folder makes it the current folder, shows it in the path box
/// and asks for its listing; closing the picker without a folder changes
/// nothing and asks for the home folder, which then becomes current. A
/// listing received is kept as it came and the first picture is shown.
pub proof fn law_folder_events<H>(
    s: GuiView<H>,
    d: Seq<char>,
    home: Option<Seq<char>>,
    files: Seq<(Seq<char>, bool)>,
)
    ensures
        folder_chosen(s, Some(d)).0.current_dir == Some(d),
        folder_chosen(s, Some(d)).0.current_dir_path == d,
        folder_chosen(s, Some(d)).1 == CommandView::ListFolder(d),
        folder_chosen(s, None) == (s, CommandView::ReadHomeDir),
        home_dir(s, home).0.current_dir == home,
        home_dir(s, home).0.files == s.files,
        folder_listed(s, files).0.files == files,
        folder_listed(s, files).1 == CommandView::PressLoad,
        folder_listed(s, files).0.current_dir == s.current_dir,
{
}

/// Showing the first picture numbers a new load request; with a current
/// folder it asks for the first entry of the listing that names a picture,
/// under the new number (the empty path when no entry does); without one it
/// asks for nothing.
pub proof fn law_first_picture_requested<H>(s: GuiView<H>)
    requires
        s.load_generation < u64::MAX,
    ensures
        ({
            let (st, c) = load_pressed(s);
            &&& st.load_generation == s.load_generation + 1
            &&& st.files == s.files
            &&& st.image_handle == s.image_handle
            &&& match s.current_dir {
                None => c == CommandView::Idle,
                Some(d) => match c {
                    CommandView::LoadImage { generation, path } => {
                        &&& generation == st.load_generation
                        &&& (forall|j: int|
                            0 <= j < s.files.len() ==> !is_image_path(#[trigger] s.files[j].0, s.separator))
                            ==> path.len() == 0
                        &&& forall|k: int|
                            0 <= k < s.files.len() && is_image_path(s.files[k].0, s.separator) && (forall|
                                j: int,
                            |
                                0 <= j < k ==> !is_image_path(#[trigger] s.files[j].0, s.separator))
                                ==> path == joined(d, #[trigger] s.files[k].0, s.separator)
                    },
                    _ => false,
                },
            }
        }),
{
    let sep = s.separator;
    let p = |n: Seq<char>| is_image_path(n, sep);
    match first_picture(s.files, sep) {
        Some(k) => {
            assert(is_first_where(s.files, p, k)) by {
                assert(exists|k: int| is_first_where(s.files, p, k));
            }
            assert forall|k2: int|
                0 <= k2 < s.files.len() && is_image_path(s.files[k2].0, sep) && (forall|j: int|
                    0 <= j < k2 ==> !is_image_path(#[trigger] s.files[j].0, sep)) implies k2 == k by {
                if k2 < k {
                    assert(!p(s.files[k2].0));
                }
                if k < k2 {
                    assert(p(s.files[k].0));
                }
            }
        },
        None => {
            assert forall|j: int| 0 <= j < s.files.len() implies !is_image_path(#[trigger] s.files[j].0, sep) by {
                if is_image_path(s.files[j].0, sep) {
                    assert(p(s.files[j].0));
                    lemma_first_where_exists(s.files, p, j);
                }
            }
            if exists|k: int| 0 <= k < s.files.len() && is_image_path(s.files[k].0, sep) {
                let j = choose|k: int| 0 <= k < s.files.len() && is_image_path(s.files[k].0, sep);
                lemma_first_where_exists(s.files, p, j);
            }
        },
    }
}

/// A turn moves the angle by the turn, within one full turn, asks for the
/// picture to be shown at the new angle, and changes nothing else.
pub proof fn law_turn<H>(s: GuiView<H>, turn: u32)
    requires
        s.angle + turn <= u32::MAX,
    ensures
        ({
            let (st, c) = rotate(s, turn);
            &&& st.angle < 360
            &&& (st.angle + 360 - s.angle - turn) % 360 == 0
            &&& c == CommandView::ShowRotated(st.angle)
            &&& st == (GuiView { angle: st.angle, ..s })
        }),
{
}

/// A decoded picture is kept, as the picture turns start from, only when it
/// belongs to the latest load request; editing field 0 (the row number) or
/// a loaded picture that is missing changes nothing.
pub proof fn law_pictures_of_older_requests_ignored<H>(
    s: GuiView<H>,
    g: u64,
    p: image::DynamicImage,
    v: Seq<char>,
)
    ensures
        g != s.load_generation ==> picture_decoded(s, g, Some(p)).0 == s,
        picture_decoded(s, s.load_generation, Some(p)).0.image_original == Some(p),
        picture_decoded(s, g, None).0 == s,
        image_stage_loaded(s, g, None).0 == s,
        excel_update(s, 0, v).0 == s,
{
}

/// Editing field `k` (counted from 1) puts the text into value `k - 1` of
/// the row being edited, keeps the row's length and its other values, and
/// changes nothing else.
pub proof fn law_editing_a_field<H>(s: GuiView<H>, k: usize, v: Seq<char>)
    requires
        1 <= k <= s.current_row.len(),
    ensures
        ({
            let (st, c) = excel_update(s, k, v);
            &&& st.current_row.len() == s.current_row.len()
            &&& st.current_row[k - 1] == v
            &&& forall|i: int| 0 <= i < s.current_row.len() && i != k - 1 ==> #[trigger] st.current_row[i]
                == s.current_row[i]
            &&& st == (GuiView { current_row: st.current_row, ..s })
            &&& c == CommandView::Idle
        }),
{
}

} // verus!
