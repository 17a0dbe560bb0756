//! The state of the tool's window and how each event changes it.

pub mod keys;
pub mod update;
pub mod view;

use vstd::prelude::*;
use crate::excel::reader::FileTime;
use image::DynamicImage;
use crate::text::{concat_str, decimal, strings_view, str_eq, u64_to_string};

verus! {

/// The state of the window. `H` is the type of a displayable picture.
pub struct Gui<H> {
    /// The picture on screen, if any.
    pub image_handle: Option<H>,
    /// The number of the latest picture load request.
    pub load_generation: u64,
    /// The text shown in the large "Contenu" box.
    pub content: String,
    /// The folder being worked on.
    pub current_dir: Option<String>,
    /// The position in `files` of the picture being described, or -1.
    pub current_index: i32,
    /// `current_index` as shown in the form ("Ligne Excel").
    pub current_index_str: String,
    /// The folder, as shown in the path box.
    pub current_dir_path: String,
    /// The modification time of the workbook when it was last read.
    pub last_modified: Option<FileTime>,
    /// The rows of the workbook, as text.
    pub excel_rows: Vec<Vec<String>>,
    /// The folder listing: each name and whether it is a workbook.
    pub files: Vec<(String, bool)>,
    /// The file last selected: a picture's name, or the path of the
    /// workbook being read.
    pub selected_file: String,
    /// The listing entry last picked, which the listing highlights.
    pub selected_entry: String,
    /// The workbook the rows were read from.
    pub excel_opened_file: String,
    /// The row being edited in the form.
    pub current_row: Vec<String>,
    /// How far the picture is turned clockwise, in degrees.
    pub angle: u32,
    /// The picture on screen as decoded, before any turn.
    pub image_original: Option<DynamicImage>,
    /// The platform's main path separator (`/`, or `\` on Windows).
    pub separator: char,
}

/// The value of a `Gui`, with strings as character sequences.
pub struct GuiView<H> {
    pub image_handle: Option<H>,
    pub load_generation: u64,
    pub content: Seq<char>,
    pub current_dir: Option<Seq<char>>,
    pub current_index: i32,
    pub current_index_str: Seq<char>,
    pub current_dir_path: Seq<char>,
    pub last_modified: Option<FileTime>,
    pub excel_rows: Seq<Seq<Seq<char>>>,
    pub files: Seq<(Seq<char>, bool)>,
    pub selected_file: Seq<char>,
    pub selected_entry: Seq<char>,
    pub excel_opened_file: Seq<char>,
    pub current_row: Seq<Seq<char>>,
    pub angle: u32,
    pub image_original: Option<DynamicImage>,
    pub separator: char,
}

/// The views of the rows of a table of strings.
pub open spec fn rows_view(v: Seq<Vec<String>>) -> Seq<Seq<Seq<char>>> {
    v.map_values(|r: Vec<String>| strings_view(r@))
}

/// The views of listing entries.
pub open spec fn files_view(v: Seq<(String, bool)>) -> Seq<(Seq<char>, bool)> {
    v.map_values(|e: (String, bool)| (e.0@, e.1))
}

/// The view of an optional string.
pub open spec fn opt_view(o: Option<String>) -> Option<Seq<char>> {
    match o {
        Some(s) => Some(s@),
        None => None,
    }
}

impl<H> View for Gui<H> {
    type V = GuiView<H>;

    open spec fn view(&self) -> GuiView<H> {
        GuiView {
            image_handle: self.image_handle,
            load_generation: self.load_generation,
            content: self.content@,
            current_dir: opt_view(self.current_dir),
            current_index: self.current_index,
            current_index_str: self.current_index_str@,
            current_dir_path: self.current_dir_path@,
            last_modified: self.last_modified,
            excel_rows: rows_view(self.excel_rows@),
            files: files_view(self.files@),
            selected_file: self.selected_file@,
            selected_entry: self.selected_entry@,
            excel_opened_file: self.excel_opened_file@,
            current_row: strings_view(self.current_row@),
            angle: self.angle,
            image_original: self.image_original,
            separator: self.separator,
        }
    }
}

/// Whether `k` is the first position of `files` whose name satisfies `p`.
pub open spec fn is_first_where(
    files: Seq<(Seq<char>, bool)>,
    p: spec_fn(Seq<char>) -> bool,
    k: int,
) -> bool {
    &&& 0 <= k < files.len()
    &&& p(files[k].0)
    &&& forall|j: int| 0 <= j < k ==> !p(#[trigger] files[j].0)
}

/// The first position of `files` whose name satisfies `p`, if any.
pub open spec fn first_where(files: Seq<(Seq<char>, bool)>, p: spec_fn(Seq<char>) -> bool) -> Option<
    int,
> {
    if exists|k: int| is_first_where(files, p, k) {
        Some(choose|k: int| is_first_where(files, p, k))
    } else {
        None
    }
}

/// The position of the entry named `name` (its first one).
pub open spec fn position_of(files: Seq<(Seq<char>, bool)>, name: Seq<char>) -> Option<int> {
    first_where(files, |n: Seq<char>| n == name)
}

pub proof fn lemma_first_where_found(
    files: Seq<(Seq<char>, bool)>,
    p: spec_fn(Seq<char>) -> bool,
    k: int,
)
    requires
        is_first_where(files, p, k),
    ensures
        first_where(files, p) == Some(k),
{
    let c = choose|k: int| is_first_where(files, p, k);
    assert(is_first_where(files, p, c));
    if c < k {
        assert(!p(files[c].0));
    }
    if c > k {
        assert(!p(files[k].0));
    }
}

pub proof fn lemma_first_where_none(files: Seq<(Seq<char>, bool)>, p: spec_fn(Seq<char>) -> bool)
    requires
        forall|j: int| 0 <= j < files.len() ==> !p(#[trigger] files[j].0),
    ensures
        first_where(files, p) is None,
{
}

/// Position of the first entry of `files` named `name`.
pub fn find_file(files: &Vec<(String, bool)>, name: &str) -> (r: Option<usize>)
    ensures
        match r {
            Some(k) => position_of(files_view(files@), name@) == Some(k as int),
            None => position_of(files_view(files@), name@) is None,
        },
{
    let ghost fv = files_view(files@);
    let ghost p = |n: Seq<char>| n == name@;
    let mut i: usize = 0;
    while i < files.len()
        invariant
            i <= files@.len(),
            fv == files_view(files@),
            p == (|n: Seq<char>| n == name@),
            forall|j: int| 0 <= j < i ==> !p(#[trigger] fv[j].0),
        decreases files@.len() - i,
    {
        if str_eq(files[i].0.as_str(), name) {
            proof {
                lemma_first_where_found(fv, p, i as int);
            }
            return Some(i);
        }
        i = i + 1;
    }
    proof {
        lemma_first_where_none(fv, p);
    }
    None
}

/// The message for a picture missing from the listing.
pub open spec fn missing_file_message(name: Seq<char>) -> Seq<char> {
    "Fichier '"@ + name + "' introuvable dans files"@
}

/// The message for a picture without a spreadsheet row.
pub open spec fn missing_row_message(row: nat) -> Seq<char> {
    "Aucune ligne à l'index "@ + decimal(row) + " dans excel_rows"@
}

impl<H> Gui<H> {
    /// A fresh window, working in `home_dir` on a platform whose main path
    /// separator is `separator`: nothing listed, no workbook read, no picture
    /// selected (`current_index` is -1).
    pub fn new(home_dir: Option<String>, separator: char) -> (g: Self)
        ensures
            g@ == (GuiView::<H> {
                image_handle: None,
                load_generation: 0,
                content: Seq::empty(),
                current_dir: opt_view(home_dir),
                current_index: -1i32,
                current_index_str: Seq::empty(),
                current_dir_path: Seq::empty(),
                last_modified: None,
                excel_rows: Seq::empty(),
                files: Seq::empty(),
                selected_file: Seq::empty(),
                selected_entry: Seq::empty(),
                excel_opened_file: Seq::empty(),
                current_row: Seq::empty(),
                angle: 0,
                image_original: None,
                separator,
            }),
    {
        let g = Gui {
            image_handle: None,
            content: String::new(),
            current_index: -1,
            current_index_str: String::new(),
            load_generation: 0,
            current_dir: home_dir,
            current_dir_path: String::new(),
            files: Vec::new(),
            last_modified: None,
            excel_rows: Vec::new(),
            selected_file: String::new(),
            selected_entry: String::new(),
            excel_opened_file: String::new(),
            current_row: Vec::new(),
            angle: 0,
            image_original: None,
            separator,
        };
        assert(g@.excel_rows =~= Seq::empty());
        assert(g@.files =~= Seq::empty());
        assert(g@.current_row =~= Seq::empty());
        g
    }

    /// Finds the spreadsheet row of the picture `filename`: the picture at
    /// position `p` of the listing (the workbook comes first) is described
    /// by row `p - 1`. Records `p` as the current index.
    pub fn get_row_for_file(&mut self, filename: &str) -> (r: Result<Vec<String>, String>)
        requires
            position_of(old(self)@.files, filename@) != Some(0int),
        ensures
            match position_of(old(self)@.files, filename@) {
                None => {
                    &&& final(self)@ == old(self)@
                    &&& r is Err
                    &&& r->Err_0@ == missing_file_message(filename@)
                },
                Some(p) => {
                    &&& final(self)@ == (GuiView {
                        current_index: p as i32,
                        current_index_str: decimal(p as nat),
                        ..old(self)@
                    })
                    &&& if p - 1 < old(self)@.excel_rows.len() {
                        r is Ok && strings_view(r->Ok_0@) == old(self)@.excel_rows[p - 1]
                    } else {
                        r is Err && r->Err_0@ == missing_row_message((p - 1) as nat)
                    }
                },
            },
    {
        let index = match find_file(&self.files, filename) {
            Some(k) => k,
            None => {
                let head = concat_str("Fichier '", filename);
                return Err(concat_str(head.as_str(), "' introuvable dans files"));
            },
        };
        let row_index = index - 1;
        self.current_index = index as i32;
        self.current_index_str = u64_to_string(index as u64);
        if row_index < self.excel_rows.len() {
            Ok(crate::text::clone_strings(&self.excel_rows[row_index]))
        } else {
            let head = concat_str("Aucune ligne à l'index ", u64_to_string(row_index as u64).as_str());
            Err(concat_str(head.as_str(), " dans excel_rows"))
        }
    }
}

} // verus!
