//! What the window shows: which event each listing entry sends, which entry
//! is highlighted, when the form is shown and what each field holds.

use vstd::prelude::*;
use crate::gui::{Gui, GuiView};
use crate::message::Message;
use crate::path::{is_xlsx, is_xlsx_path};
use crate::text::str_eq;

verus! {

/// The event a click on the listing entry `name` sends: a workbook is
/// opened, anything else is shown as a picture. `sep` is the platform's main
/// path separator.
pub fn file_message<H>(name: &String, sep: char) -> (m: Message<H>)
    ensures
        match m {
            Message::LoadXlsx(n) => is_xlsx_path(name@, sep) && n@ == name@,
            Message::ChangePicture(n) => !is_xlsx_path(name@, sep) && n@ == name@,
            _ => false,
        },
{
    if is_xlsx(name.as_str(), sep) {
        Message::LoadXlsx(name.clone())
    } else {
        Message::ChangePicture(name.clone())
    }
}

/// The text of form field `index`: field 0 is the row number, field `k` is
/// the `k`-th value of the current row.
pub open spec fn field_text<H>(s: GuiView<H>, index: usize) -> Seq<char> {
    if index == 0 {
        s.current_index_str
    } else {
        s.current_row[index - 1]
    }
}

impl<H> Gui<H> {
    /// Whether the listing entry `name` is the one last picked, which the
    /// listing highlights.
    pub fn is_selected(&self, name: &String) -> (r: bool)
        ensures
            r == (name@ == self@.selected_entry),
    {
        str_eq(self.selected_entry.as_str(), name.as_str())
    }

    /// Whether the form is shown: a picture is on screen and a row is being
    /// edited.
    pub fn shows_form(&self) -> (r: bool)
        ensures
            r == (self@.image_handle is Some && self@.current_row.len() > 0),
    {
        self.image_handle.is_some() && self.current_row.len() > 0
    }

    /// The text of form field `index`, as `field_text` states it.
    pub fn field_value(&self, index: usize) -> (t: &String)
        requires
            index == 0 || index - 1 < self@.current_row.len(),
        ensures
            t@ == field_text(self@, index),
    {
        if index == 0 {
            &self.current_index_str
        } else {
            &self.current_row[index - 1]
        }
    }
}

} // verus!
