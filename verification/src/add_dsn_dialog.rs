//! The rules of the dialog that adds a data source.

pub mod dialog;

pub use dialog::AddDsnDialogResult;
