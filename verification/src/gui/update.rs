//! How each event changes the state, and the work it asks for.

use vstd::prelude::*;
use vstd::string::*;
use crate::excel::reader::LoadResult;
use crate::gui::{
    files_view, find_file, first_where, lemma_first_where_found, lemma_first_where_none,
    opt_view, rows_view, Gui, GuiView, position_of,
};
use crate::message::{Command, CommandView, Message, ReadOutcome, WriteOutcome};
use crate::path::{is_image_path, is_supported_image, join_path, joined};
use crate::image_ops::{rotated, turned_by};
use image::DynamicImage;
use crate::text::{clone_strings, decimal, parse_usize, parse_usize_str, str_eq, strings_view};

verus! {

/// The folder as a path prefix: empty when there is none.
pub open spec fn dir_or_empty(d: Option<Seq<char>>) -> Seq<char> {
    match d {
        Some(x) => x,
        None => Seq::empty(),
    }
}

/// A form row with its seven fields empty.
pub open spec fn blank_row() -> Seq<Seq<char>> {
    Seq::new(7, |i: int| Seq::<char>::empty())
}

/// The "page" field of a row (its seventh), if the row has one.
pub open spec fn page_of(row: Seq<Seq<char>>) -> Option<Seq<char>> {
    if row.len() > 6 {
        Some(row[6])
    } else {
        None
    }
}

/// A form field was edited: field `index` (counted from 1; field 0, the row
/// number, is read-only) of the current row takes the new text.
pub open spec fn excel_update<H>(s: GuiView<H>, index: usize, val: Seq<char>) -> (GuiView<H>, CommandView) {
    if index > 0 {
        (GuiView { current_row: s.current_row.update(index - 1, val), ..s }, CommandView::Idle)
    } else {
        (s, CommandView::Idle)
    }
}

/// The rows after the form is submitted: the current row replaces the row
/// at `current_index - 1`, or is appended when there is no such row.
pub open spec fn submitted_rows<H>(s: GuiView<H>) -> Seq<Seq<Seq<char>>> {
    let idx = s.current_index as usize;
    if idx <= s.excel_rows.len() {
        s.excel_rows.update(idx - 1, s.current_row)
    } else {
        s.excel_rows.push(s.current_row)
    }
}

/// Whether submitting inserts a new row rather than overwriting one: the
/// page field is set, is not "1", and differs from the page field of the
/// row at `current_index - 1` as it was stored before the submit.
pub open spec fn should_insert<H>(s: GuiView<H>) -> bool {
    let rows = s.excel_rows;
    let prev_i = (s.current_index - 1) as usize;
    let previous = if prev_i < rows.len() {
        page_of(rows[prev_i as int])
    } else {
        None
    };
    match page_of(s.current_row) {
        Some(p) => p.len() > 0 && p != "1"@ && Some(p) != previous,
        None => false,
    }
}

/// The workbook row a submission writes: the shown row number read as an
/// unsigned integer, 0 when it does not read as one.
pub open spec fn submit_row_index<H>(s: GuiView<H>) -> usize {
    match parse_usize(s.current_index_str) {
        Some(v) => v,
        None => 0,
    }
}

/// The form was submitted: the rows are updated, and the workbook gets a new
/// row or an overwritten one.
pub open spec fn excel_submit<H>(s: GuiView<H>) -> (GuiView<H>, CommandView) {
    let st = GuiView { excel_rows: submitted_rows(s), ..s };
    if should_insert(s) {
        (
            st,
            CommandView::InsertRow {
                path: s.excel_opened_file,
                insert_at: submit_row_index(s) as u32,
                values: s.current_row,
            },
        )
    } else {
        (
            st,
            CommandView::UpdateRow {
                path: s.excel_opened_file,
                row_index: submit_row_index(s),
                values: s.current_row,
            },
        )
    }
}

/// A workbook was picked in the listing: the picture is hidden, the entry
/// is highlighted, the workbook's path in the folder becomes the selected
/// file and is read.
pub open spec fn load_xlsx<H>(s: GuiView<H>, name: Seq<char>) -> (GuiView<H>, CommandView) {
    let path = joined(dir_or_empty(s.current_dir), name, s.separator);
    (
        GuiView { image_handle: None, selected_file: path, selected_entry: name, ..s },
        CommandView::LoadRows { path, last_modified: s.last_modified },
    )
}

/// The workbook was read: new rows are kept with their modification time and
/// the workbook they came from; an unchanged file or a failure changes
/// nothing.
pub open spec fn rows_loaded<H>(s: GuiView<H>, outcome: ReadOutcome) -> (GuiView<H>, CommandView) {
    match outcome {
        ReadOutcome::Read(LoadResult::Loaded { rows, modified }) => (
            GuiView {
                excel_rows: rows_view(rows@),
                last_modified: Some(modified),
                excel_opened_file: s.selected_file,
                ..s
            },
            CommandView::Idle,
        ),
        _ => (s, CommandView::Idle),
    }
}

/// Whether a picture can be selected in state `s` without failing: it is not
/// the first entry of the listing, and a row found for it has at least six
/// fields; a new load request can be numbered.
pub open spec fn can_change_picture<H>(s: GuiView<H>, pic: Seq<char>) -> bool {
    &&& s.load_generation < u64::MAX
    &&& match position_of(s.files, pic) {
        Some(k) => k != 0 && (k - 1 < s.excel_rows.len() ==> s.excel_rows[k - 1].len() >= 6),
        None => true,
    }
}

/// The row a picture's form shows: its workbook row, with a page field "1"
/// added when the row has no seventh field.
pub open spec fn form_row(row: Seq<Seq<char>>) -> Seq<Seq<char>> {
    if row.len() > 6 {
        row
    } else {
        row.push("1"@)
    }
}

/// A picture was picked in the listing: its row is looked up (the picture at
/// position `k` of the listing has row `k - 1`); the form shows that row, or
/// seven empty fields when there is none; the entry is highlighted; the
/// picture shown so far is dropped and the new one is loaded.
pub open spec fn change_picture<H>(s: GuiView<H>, pic: Seq<char>) -> (GuiView<H>, CommandView) {
    let generation = (s.load_generation + 1) as u64;
    let base = GuiView {
        image_handle: None,
        image_original: None,
        selected_file: pic,
        selected_entry: pic,
        load_generation: generation,
        ..s
    };
    let st = match position_of(s.files, pic) {
        None => GuiView { current_row: blank_row(), ..base },
        Some(k) => {
            let found = GuiView {
                current_index: k as i32,
                current_index_str: decimal(k as nat),
                ..base
            };
            if k - 1 < s.excel_rows.len() {
                let row = form_row(s.excel_rows[k - 1]);
                GuiView { current_row: row, content: row[6], ..found }
            } else {
                GuiView { current_row: blank_row(), ..found }
            }
        },
    };
    (st, CommandView::LoadImage { generation, path: joined(dir_or_empty(s.current_dir), pic, s.separator) })
}

/// The folder picker closed: a chosen folder becomes the current one and is
/// listed; otherwise the home folder is looked up.
pub open spec fn folder_chosen<H>(s: GuiView<H>, folder: Option<Seq<char>>) -> (GuiView<H>, CommandView) {
    match folder {
        Some(d) => (
            GuiView { current_dir: Some(d), current_dir_path: d, ..s },
            CommandView::ListFolder(d),
        ),
        None => (s, CommandView::ReadHomeDir),
    }
}

/// The folder was listed: the listing is kept and the first picture is
/// shown.
pub open spec fn folder_listed<H>(s: GuiView<H>, files: Seq<(Seq<char>, bool)>) -> (
    GuiView<H>,
    CommandView,
) {
    (GuiView { files, ..s }, CommandView::PressLoad)
}

/// The home folder was looked up: it becomes the current folder.
pub open spec fn home_dir<H>(s: GuiView<H>, home: Option<Seq<char>>) -> (GuiView<H>, CommandView) {
    (GuiView { current_dir: home, ..s }, CommandView::Idle)
}

/// The position of the first picture of the listing, if any.
pub open spec fn first_picture(files: Seq<(Seq<char>, bool)>, sep: char) -> Option<int> {
    first_where(files, |n: Seq<char>| is_image_path(n, sep))
}

/// Show the first picture: a new load request is numbered; with a current
/// folder, the first picture of the listing (or the empty path when there
/// is none) is loaded.
pub open spec fn load_pressed<H>(s: GuiView<H>) -> (GuiView<H>, CommandView) {
    let generation = (s.load_generation + 1) as u64;
    let st = GuiView { load_generation: generation, ..s };
    match s.current_dir {
        None => (st, CommandView::Idle),
        Some(d) => {
            let path = match first_picture(s.files, s.separator) {
                Some(k) => joined(d, s.files[k].0, s.separator),
                None => Seq::empty(),
            };
            (st, CommandView::LoadImage { generation, path })
        },
    }
}

/// A picture finished loading: it is shown if it belongs to the latest load
/// request and was loaded.
pub open spec fn image_stage_loaded<H>(s: GuiView<H>, generation: u64, handle: Option<H>) -> (
    GuiView<H>,
    CommandView,
) {
    if generation == s.load_generation && handle is Some {
        (GuiView { image_handle: handle, ..s }, CommandView::Idle)
    } else {
        (s, CommandView::Idle)
    }
}

/// The full picture was decoded: it is kept, as the picture any turn starts
/// from, if it belongs to the latest load request and was decoded.
pub open spec fn picture_decoded<H>(s: GuiView<H>, generation: u64, picture: Option<DynamicImage>) -> (
    GuiView<H>,
    CommandView,
) {
    if generation == s.load_generation && picture is Some {
        (GuiView { image_original: picture, ..s }, CommandView::Idle)
    } else {
        (s, CommandView::Idle)
    }
}

/// The picture is turned by `turn` more degrees clockwise (90 or 270), modulo
/// a full turn; the decoded picture, turned by the new angle, is to be shown.
pub open spec fn rotate<H>(s: GuiView<H>, turn: u32) -> (GuiView<H>, CommandView) {
    let a = ((s.angle + turn) % 360) as u32;
    (GuiView { angle: a, ..s }, CommandView::ShowRotated(a))
}

/// The EXIF orientation tag value for a clockwise turn of `angle` degrees.
pub open spec fn orientation_of(angle: u32) -> u16 {
    if angle == 90 {
        6
    } else if angle == 180 {
        3
    } else if angle == 270 {
        8
    } else {
        1
    }
}


/// Seven empty form fields.
fn blank_form_row() -> (v: Vec<String>)
    ensures
        strings_view(v@) == blank_row(),
{
    let mut v: Vec<String> = Vec::new();
    let mut i: usize = 0;
    while i < 7
        invariant
            i <= 7,
            v@.len() == i,
            forall|j: int| 0 <= j < i ==> (#[trigger] v@[j])@ == Seq::<char>::empty(),
        decreases 7 - i,
    {
        v.push(String::new());
        i = i + 1;
    }
    assert(strings_view(v@) =~= blank_row());
    v
}

fn copy_rows(rows: Vec<Vec<String>>) -> (out: Vec<Vec<String>>)
    ensures
        rows_view(out@) == rows_view(rows@),
{
    rows
}

impl<H> Gui<H> {
    /// Handles `ExcelUpdate(index, new_val)`, as `excel_update` states it.
    pub fn on_excel_update(&mut self, index: usize, new_val: String) -> (c: Command)
        requires
            index == 0 || index - 1 < old(self)@.current_row.len(),
        ensures
            (final(self)@, c@) == excel_update(old(self)@, index, new_val@),
    {
        if index > 0 {
            let ghost before = self.current_row@;
            self.current_row.set(index - 1, new_val);
            assert(strings_view(self.current_row@) =~= strings_view(before).update(
                index - 1,
                new_val@,
            ));
        }
        Command::Idle
    }

    /// Handles `ExcelSubmit`, as `excel_submit` states it.
    pub fn on_excel_submit(&mut self) -> (c: Command)
        requires
            old(self).current_index != 0,
            old(self).current_index != i32::MIN,
        ensures
            (final(self)@, c@) == excel_submit(old(self)@),
    {
        let ghost s = self@;
        let idx = self.current_index as usize;
        let c = self.current_index;
        assert(idx != 0) by (bit_vector)
            requires
                idx == c as usize,
                c != 0,
        ;
        let prev_i = (self.current_index - 1) as usize;
        let mut previous: Option<&String> = None;
        if prev_i < self.excel_rows.len() {
            let r = &self.excel_rows[prev_i];
            if r.len() > 6 {
                previous = Some(&r[6]);
            }
        }
        let should = if self.current_row.len() > 6 {
            let p = &self.current_row[6];
            !p.as_str().is_empty() && !str_eq(p.as_str(), "1") && match previous {
                Some(q) => !str_eq(p.as_str(), q.as_str()),
                None => true,
            }
        } else {
            false
        };
        proof {
            let rows = s.excel_rows;
            if prev_i < rows.len() && rows[prev_i as int].len() > 6 {
                assert(previous is Some && previous->0@ == rows[prev_i as int][6]);
            }
        }
        assert(should == should_insert(s));
        let row = clone_strings(&self.current_row);
        if idx <= self.excel_rows.len() {
            let ghost before = self.excel_rows@;
            self.excel_rows.set(idx - 1, row);
            assert(rows_view(self.excel_rows@) =~= rows_view(before).update(
                idx - 1,
                s.current_row,
            ));
        } else {
            let ghost before = self.excel_rows@;
            self.excel_rows.push(row);
            assert(rows_view(self.excel_rows@) =~= rows_view(before).push(s.current_row));
        }
        assert(rows_view(self.excel_rows@) == submitted_rows(s));
        let row_index: usize = match parse_usize_str(self.current_index_str.as_str()) {
            Some(v) => v,
            None => 0,
        };
        let path = self.excel_opened_file.clone();
        let values = clone_strings(&self.current_row);
        if should {
            Command::InsertRow { path, insert_at: row_index as u32, values }
        } else {
            Command::UpdateRow { path, row_index, values }
        }
    }

    /// Handles `ExcelUpdated`: nothing changes.
    pub fn on_excel_updated(&mut self, _result: WriteOutcome) -> (c: Command)
        ensures
            final(self)@ == old(self)@,
            c@ == CommandView::Idle,
    {
        Command::Idle
    }

    /// Handles `ChooseFolder`: the host opens a folder picker.
    pub fn on_choose_folder(&self) -> (c: Command)
        ensures
            c@ == CommandView::ChooseFolder,
    {
        Command::ChooseFolder
    }

    /// Handles `LoadXlsx(xlsx_path)`, as `load_xlsx` states it.
    pub fn on_load_xlsx(&mut self, xlsx_path: String) -> (c: Command)
        ensures
            (final(self)@, c@) == load_xlsx(old(self)@, xlsx_path@),
    {
        self.image_handle = None;
        let path = match &self.current_dir {
            Some(d) => join_path(d.as_str(), xlsx_path.as_str(), self.separator),
            None => join_path("", xlsx_path.as_str(), self.separator),
        };
        proof {
            reveal_strlit("");
        }
        self.selected_file = path.clone();
        self.selected_entry = xlsx_path;
        Command::LoadRows { path, last_modified: self.last_modified }
    }

    /// Handles `RowsLoaded(outcome)`, as `rows_loaded` states it.
    pub fn on_rows_loaded(&mut self, outcome: ReadOutcome) -> (c: Command)
        ensures
            (final(self)@, c@) == rows_loaded(old(self)@, outcome),
    {
        match outcome {
            ReadOutcome::Read(LoadResult::Loaded { rows, modified }) => {
                self.excel_rows = copy_rows(rows);
                self.last_modified = Some(modified);
                self.excel_opened_file = self.selected_file.clone();
            },
            _ => {},
        }
        Command::Idle
    }

    /// Handles `ChangePicture(picture_path)`, as `change_picture` states it.
    pub fn on_change_picture(&mut self, picture_path: String) -> (c: Command)
        requires
            can_change_picture(old(self)@, picture_path@),
        ensures
            (final(self)@, c@) == change_picture(old(self)@, picture_path@),
    {
        let ghost s = self@;
        match self.get_row_for_file(picture_path.as_str()) {
            Ok(row) => {
                let mut current_row = row;
                if current_row.len() <= 6 {
                    current_row.push(String::from_str("1"));
                }
                assert(strings_view(current_row@) =~= form_row(strings_view(row@)));
                self.current_row = current_row;
                self.content = self.current_row[6].clone();
            },
            Err(_) => {
                self.current_row = blank_form_row();
            },
        }
        self.image_handle = None;
        self.image_original = None;
        self.selected_file = picture_path.clone();
        self.selected_entry = picture_path.clone();
        let path = match &self.current_dir {
            Some(d) => join_path(d.as_str(), picture_path.as_str(), self.separator),
            None => join_path("", picture_path.as_str(), self.separator),
        };
        proof {
            reveal_strlit("");
        }
        self.load_generation = self.load_generation + 1;
        Command::LoadImage { generation: self.load_generation, path }
    }

    /// Handles `FolderChosen(folder)`, as `folder_chosen` states it.
    pub fn on_folder_chosen(&mut self, folder: Option<String>) -> (c: Command)
        ensures
            (final(self)@, c@) == folder_chosen(old(self)@, opt_view(folder)),
    {
        match folder {
            Some(dir) => {
                self.current_dir_path = dir.clone();
                self.current_dir = Some(dir.clone());
                Command::ListFolder(dir)
            },
            None => Command::ReadHomeDir,
        }
    }

    /// Handles `FolderListed(files)`, as `folder_listed` states it.
    pub fn on_folder_listed(&mut self, files: Vec<(String, bool)>) -> (c: Command)
        ensures
            (final(self)@, c@) == folder_listed(old(self)@, files_view(files@)),
    {
        self.files = files;
        Command::PressLoad
    }

    /// Handles `HomeDir(home)`, as `home_dir` states it.
    pub fn on_home_dir(&mut self, home: Option<String>) -> (c: Command)
        ensures
            (final(self)@, c@) == home_dir(old(self)@, opt_view(home)),
    {
        self.current_dir = home;
        Command::Idle
    }

    /// Handles `LoadPressed`, as `load_pressed` states it.
    pub fn on_load_pressed(&mut self) -> (c: Command)
        requires
            old(self).load_generation < u64::MAX,
        ensures
            (final(self)@, c@) == load_pressed(old(self)@),
    {
        self.load_generation = self.load_generation + 1;
        let generation = self.load_generation;
        let dir = match &self.current_dir {
            Some(d) => d,
            None => {
                return Command::Idle;
            },
        };
        let ghost fv = files_view(self.files@);
        let sep = self.separator;
        let ghost p = |n: Seq<char>| is_image_path(n, sep);
        let mut i: usize = 0;
        while i < self.files.len()
            invariant
                i <= self.files@.len(),
                fv == files_view(self.files@),
                sep == self.separator,
                p == (|n: Seq<char>| is_image_path(n, sep)),
                forall|j: int| 0 <= j < i ==> !p(#[trigger] fv[j].0),
                generation == old(self).load_generation + 1,
                self@ == (GuiView { load_generation: generation, ..old(self)@ }),
                self@.current_dir == Some(dir@),
            decreases self.files@.len() - i,
        {
            if is_supported_image(self.files[i].0.as_str(), sep) {
                proof {
                    lemma_first_where_found(fv, p, i as int);
                }
                let path = join_path(dir.as_str(), self.files[i].0.as_str(), sep);
                return Command::LoadImage { generation, path };
            }
            i = i + 1;
        }
        proof {
            lemma_first_where_none(fv, p);
        }
        Command::LoadImage { generation, path: String::new() }
    }

    /// Handles `ImageStageLoaded(generation, handle)`, as `image_stage_loaded`
    /// states it.
    pub fn on_image_stage_loaded(&mut self, generation: u64, handle: Option<H>) -> (c: Command)
        ensures
            (final(self)@, c@) == image_stage_loaded(old(self)@, generation, handle),
    {
        if generation == self.load_generation && handle.is_some() {
            self.image_handle = handle;
        }
        Command::Idle
    }

    /// Handles `PictureDecoded(generation, picture)`, as `picture_decoded`
    /// states it.
    pub fn on_picture_decoded(&mut self, generation: u64, picture: Option<DynamicImage>) -> (c: Command)
        ensures
            (final(self)@, c@) == picture_decoded(old(self)@, generation, picture),
    {
        if generation == self.load_generation && picture.is_some() {
            self.image_original = picture;
        }
        Command::Idle
    }

    /// Handles `RotateCw` and `RotateCcw`: the angle grows by `turn` degrees
    /// clockwise, as `rotate` states it, and the picture to show is the
    /// decoded one turned by the new angle.
    pub fn on_rotate(&mut self, turn: u32) -> (c: Command)
        requires
            old(self).angle + turn <= u32::MAX,
            old(self).image_original is Some,
        ensures
            (final(self)@, c@) == rotate(old(self)@, turn),
            shows_turned(old(self)@, c),
    {
        self.angle = (self.angle + turn) % 360;
        let angle = self.angle;
        match &self.image_original {
            Some(img) => Command::ShowRotated { angle, picture: rotated(img, angle) },
            None => Command::Idle,
        }
    }

    /// The EXIF orientation tag value matching the current turn.
    pub fn exif_orientation(&self) -> (o: u16)
        ensures
            o == orientation_of(self.angle),
    {
        if self.angle == 90 {
            6
        } else if self.angle == 180 {
            3
        } else if self.angle == 270 {
            8
        } else {
            1
        }
    }
}


/// Whether `m` can be handled in state `s` without failing.
pub open spec fn can_handle<H>(s: GuiView<H>, m: Message<H>) -> bool {
    match m {
        Message::ExcelUpdate(i, _) => i == 0 || i - 1 < s.current_row.len(),
        Message::ExcelSubmit => s.current_index != 0 && s.current_index != i32::MIN,
        Message::ChangePicture(p) => can_change_picture(s, p@),
        Message::LoadPressed => s.load_generation < u64::MAX,
        Message::RotateCw => s.angle + 90 <= u32::MAX && s.image_original is Some,
        Message::RotateCcw => s.angle + 270 <= u32::MAX && s.image_original is Some,
        _ => true,
    }
}

/// The state after `m` in state `s`, and the work it asks for.
pub open spec fn step<H>(s: GuiView<H>, m: Message<H>) -> (GuiView<H>, CommandView) {
    match m {
        Message::LoadPressed => load_pressed(s),
        Message::ImageStageLoaded(g, h) => image_stage_loaded(s, g, h),
        Message::ChooseFolder => (s, CommandView::ChooseFolder),
        Message::FolderChosen(f) => folder_chosen(s, opt_view(f)),
        Message::FolderListed(files) => folder_listed(s, files_view(files@)),
        Message::HomeDir(h) => home_dir(s, opt_view(h)),
        Message::ChangePicture(p) => change_picture(s, p@),
        Message::LoadXlsx(x) => load_xlsx(s, x@),
        Message::RowsLoaded(o) => rows_loaded(s, o),
        Message::ExcelUpdate(i, v) => excel_update(s, i, v@),
        Message::ExcelSubmit => excel_submit(s),
        Message::ExcelUpdated(_) => (s, CommandView::Idle),
        Message::FocusNext => (s, CommandView::FocusNext),
        Message::FocusPrevious => (s, CommandView::FocusPrevious),
        Message::RotateCw => rotate(s, 90),
        Message::RotateCcw => rotate(s, 270),
        Message::PictureDecoded(g, p) => picture_decoded(s, g, p),
    }
}

/// Whether the picture a command asks to show, if any, is the decoded
/// picture of `s` turned by the angle the command names.
pub open spec fn shows_turned<H>(s: GuiView<H>, c: Command) -> bool {
    match c {
        Command::ShowRotated { angle, picture } => match s.image_original {
            Some(img) => turned_by(img, picture, angle),
            None => false,
        },
        _ => true,
    }
}

impl<H> Gui<H> {
    /// Handles one event, as `step` states it.
    pub fn update(&mut self, message: Message<H>) -> (c: Command)
        requires
            can_handle(old(self)@, message),
        ensures
            (final(self)@, c@) == step(old(self)@, message),
            shows_turned(old(self)@, c),
    {
        match message {
            Message::RotateCw => self.on_rotate(90),
            Message::RotateCcw => self.on_rotate(270),
            Message::ExcelUpdate(index, new_val) => self.on_excel_update(index, new_val),
            Message::ExcelSubmit => self.on_excel_submit(),
            Message::ExcelUpdated(result) => self.on_excel_updated(result),
            Message::FocusNext => Command::FocusNext,
            Message::FocusPrevious => Command::FocusPrevious,
            Message::ChooseFolder => self.on_choose_folder(),
            Message::LoadXlsx(xlsx_path) => self.on_load_xlsx(xlsx_path),
            Message::RowsLoaded(outcome) => self.on_rows_loaded(outcome),
            Message::ChangePicture(picture_path) => self.on_change_picture(picture_path),
            Message::FolderChosen(folder) => self.on_folder_chosen(folder),
            Message::FolderListed(files) => self.on_folder_listed(files),
            Message::HomeDir(home) => self.on_home_dir(home),
            Message::LoadPressed => self.on_load_pressed(),
            Message::ImageStageLoaded(generation, handle) => {
                self.on_image_stage_loaded(generation, handle)
            },
            Message::PictureDecoded(generation, picture) => {
                self.on_picture_decoded(generation, picture)
            },
        }
    }
}


impl<H> Gui<H> {
    /// Whether the picture `name` can be selected without failing, as
    /// `can_change_picture` states it.
    pub fn can_select_picture(&self, name: &str) -> (r: bool)
        ensures
            r == can_change_picture(self@, name@),
    {
        if self.load_generation == u64::MAX {
            return false;
        }
        match find_file(&self.files, name) {
            None => true,
            Some(k) => {
                if k == 0 {
                    false
                } else if k - 1 < self.excel_rows.len() {
                    self.excel_rows[k - 1].len() >= 6
                } else {
                    true
                }
            },
        }
    }

    /// Whether `m` can be handled without failing, as `can_handle` states it.
    pub fn accepts(&self, m: &Message<H>) -> (r: bool)
        ensures
            r == can_handle(self@, *m),
    {
        match m {
            Message::ExcelUpdate(i, _) => *i == 0 || *i - 1 < self.current_row.len(),
            Message::ExcelSubmit => self.current_index != 0 && self.current_index != i32::MIN,
            Message::ChangePicture(p) => self.can_select_picture(p.as_str()),
            Message::LoadPressed => self.load_generation < u64::MAX,
            Message::RotateCw => self.angle <= u32::MAX - 90 && self.image_original.is_some(),
            Message::RotateCcw => self.angle <= u32::MAX - 270 && self.image_original.is_some(),
            _ => true,
        }
    }
}

} // verus!
