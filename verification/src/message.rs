//! The events the tool reacts to, and the work it asks its host to do in
//! return.

use vstd::prelude::*;
use crate::excel::reader::{FileTime, LoadResult};
use crate::text::strings_view;
use image::DynamicImage;

verus! {

/// An event: something the user did, or the outcome of work the tool asked
/// for. `H` is the type of a displayable picture.
#[derive(Debug, Clone)]
pub enum Message<H> {
    /// Show the first picture of the folder.
    LoadPressed,
    /// A picture finished loading for the load request numbered by the
    /// first field; `None` when it could not be loaded.
    ImageStageLoaded(u64, Option<H>),
    /// Ask the user for a folder.
    ChooseFolder,
    /// The folder the user chose, if any.
    FolderChosen(Option<String>),
    /// The listing of the chosen folder.
    FolderListed(Vec<(String, bool)>),
    /// The user's home folder, if it is known.
    HomeDir(Option<String>),
    /// Show the picture with this name and its spreadsheet row.
    ChangePicture(String),
    /// Open the workbook with this name.
    LoadXlsx(String),
    /// The outcome of reading the workbook.
    RowsLoaded(ReadOutcome),
    /// A form field was edited: field number and new text.
    ExcelUpdate(usize, String),
    /// The form was submitted.
    ExcelSubmit,
    /// The outcome of writing the workbook.
    ExcelUpdated(WriteOutcome),
    /// Move the keyboard focus forward.
    FocusNext,
    /// Move the keyboard focus back.
    FocusPrevious,
    /// Turn the picture a quarter turn clockwise.
    RotateCw,
    /// Turn the picture a quarter turn counter-clockwise.
    RotateCcw,
    /// The full picture decoded for the load request numbered by the first
    /// field; `None` when it could not be decoded.
    PictureDecoded(u64, Option<DynamicImage>),
}

/// The outcome of reading a workbook.
#[derive(Debug, Clone)]
pub enum ReadOutcome {
    Read(LoadResult),
    Failed(String),
}

/// The outcome of writing a workbook.
#[derive(Debug, Clone)]
pub enum WriteOutcome {
    Written,
    Failed(String),
}

/// Work the tool asks its host to do after an event.
#[derive(Debug)]
pub enum Command {
    /// Nothing.
    Idle,
    /// Open a folder picker, then send `FolderChosen`.
    ChooseFolder,
    /// List the folder, then send `FolderListed`.
    ListFolder(String),
    /// Look up the home folder, then send `HomeDir`.
    ReadHomeDir,
    /// Read the workbook at `path` unless it was not modified since
    /// `last_modified`, then send `RowsLoaded`.
    LoadRows { path: String, last_modified: Option<FileTime> },
    /// Load the picture at `path`, a quick version and a full one, sending
    /// `ImageStageLoaded` with `generation` for each.
    LoadImage { generation: u64, path: String },
    /// Insert a row holding `values` at `insert_at` in the workbook at
    /// `path`, then send `ExcelUpdated`.
    InsertRow { path: String, insert_at: u32, values: Vec<String> },
    /// Overwrite row `row_index` of the workbook at `path` with `values`,
    /// then send `ExcelUpdated`.
    UpdateRow { path: String, row_index: usize, values: Vec<String> },
    /// Move the keyboard focus forward.
    FocusNext,
    /// Move the keyboard focus back.
    FocusPrevious,
    /// Send `LoadPressed`.
    PressLoad,
    /// Show `picture`, the decoded picture turned by `angle` degrees
    /// clockwise, by sending `ImageStageLoaded` for the latest load request.
    ShowRotated { angle: u32, picture: DynamicImage },
}

/// The value of a `Command`, with strings as character sequences.
pub enum CommandView {
    Idle,
    ChooseFolder,
    ListFolder(Seq<char>),
    ReadHomeDir,
    LoadRows { path: Seq<char>, last_modified: Option<FileTime> },
    LoadImage { generation: u64, path: Seq<char> },
    InsertRow { path: Seq<char>, insert_at: u32, values: Seq<Seq<char>> },
    UpdateRow { path: Seq<char>, row_index: usize, values: Seq<Seq<char>> },
    FocusNext,
    FocusPrevious,
    PressLoad,
    ShowRotated(u32),
}

impl View for Command {
    type V = CommandView;

    open spec fn view(&self) -> CommandView {
        match *self {
            Command::Idle => CommandView::Idle,
            Command::ChooseFolder => CommandView::ChooseFolder,
            Command::ListFolder(d) => CommandView::ListFolder(d@),
            Command::ReadHomeDir => CommandView::ReadHomeDir,
            Command::LoadRows { path, last_modified } => CommandView::LoadRows {
                path: path@,
                last_modified,
            },
            Command::LoadImage { generation, path } => CommandView::LoadImage {
                generation,
                path: path@,
            },
            Command::InsertRow { path, insert_at, values } => CommandView::InsertRow {
                path: path@,
                insert_at,
                values: strings_view(values@),
            },
            Command::UpdateRow { path, row_index, values } => CommandView::UpdateRow {
                path: path@,
                row_index,
                values: strings_view(values@),
            },
            Command::FocusNext => CommandView::FocusNext,
            Command::FocusPrevious => CommandView::FocusPrevious,
            Command::PressLoad => CommandView::PressLoad,
            Command::ShowRotated { angle, .. } => CommandView::ShowRotated(angle),
        }
    }
}

} // verus!
