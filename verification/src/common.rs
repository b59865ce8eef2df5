//! Types and rules shared by all parts of the configuration tool.

pub mod all_settings;
pub mod config_error;
pub mod duckdb_setting;
pub mod exchange;
pub mod paths;
pub mod protocol;
pub mod registry;
pub mod store_laws;
pub mod store_model;
pub mod text;

pub use all_settings::all_settings;
pub use config_error::ConfigError;
pub use duckdb_setting::DuckDbSetting;
pub use registry::DsnType;
pub use registry::RegistryDsn;
pub use registry::RegistrySetting;
