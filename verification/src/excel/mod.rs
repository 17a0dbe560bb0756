//! The workbook side of the tool: turning the cells of the first sheet into
//! text rows, deciding when a workbook must be read again, and writing a
//! row back.

pub mod reader;
pub mod workbook;
pub mod writer;
