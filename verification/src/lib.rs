//! Wiborade: the logic of a small desktop tool that builds a spreadsheet
//! index of scanned letters. The user opens a folder of photographs and one
//! workbook, walks through the pictures and fills in one spreadsheet row per
//! picture. Everything that decides what happens lives here, with contracts;
//! windows, dialogs, file access and image decoding from disk stay outside.

pub mod text;
pub mod path;
pub mod excel;
pub mod files;
pub mod message;
pub mod gui;
pub mod image_ops;
pub mod laws;
pub mod event_laws;
pub mod reading_laws;
pub mod listing_laws;
pub mod path_laws;
