//! Loading the data sources of the driver: the discovery that finds them
//! in the registry, and what the loading dialog hands on.

pub mod dialog;
pub mod laws;
pub mod result;

pub use dialog::Discovery;
pub use result::LoadDsnsDialogResult;
pub use result::LoadDsnsResult;
