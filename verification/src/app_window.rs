//! The rules of the main window: which settings its table shows for a data
//! source, in which order, and which of them pass the filter.

pub mod settings_view;
pub mod window;
