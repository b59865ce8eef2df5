//! The rules of the dialog that edits one setting of a data source.

pub mod dialog;

pub use dialog::SettingDialogResult;
