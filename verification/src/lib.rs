//! Configuration of ODBC data sources for the DuckDB driver.
//!
//! The library holds the rules of the configuration tool: which requests
//! are put to the Windows registry and in which order, how its replies are
//! turned into results and error messages, how the data sources of the
//! driver are told from the others, and how the settings of a data source
//! are merged with the driver's catalog, ordered and filtered for display.
//! It performs no input or output itself: a caller carries each request to
//! the registry and hands the reply back.

pub mod common;
pub mod app_window;
pub mod load_dsns_dialog;
pub mod add_dsn_dialog;
pub mod setting_dialog;
