//! The data sources as the registry stores them: where they are kept, and
//! the records that a listing of them yields.

use vstd::prelude::*;
use vstd::string::*;

use crate::common::exchange::{begin, Exchange, Operation, OperationView};
use crate::common::protocol::{child_path, KeyRef};

verus! {

/// The key under which the driver is registered, below the machine root.
pub const DRIVER_KEY_PATH: &'static str = "SOFTWARE\\ODBC\\ODBCINST.INI\\DuckDB Driver";

/// The key that holds the data sources of a scope, below the scope's root.
pub const ODBC_INI_SUBPATH: &'static str = "SOFTWARE\\ODBC\\ODBC.INI";

/// The name of the value that holds the path of the driver's file.
pub const DRIVER_SETTING_NAME: &'static str = "Driver";

/// The name of the value that holds the path of the database.
pub const DATABASE_SETTING_NAME: &'static str = "database";

/// What the settings table says of the `database` value.
pub const DATABASE_SETTING_DESCRIPTION: &'static str =
    "Path to the database file, or ':memory:' for an in-memory database";

/// The name of the value that holds the path of the script that is run
/// when a connection is opened.
pub const SESSION_INIT_SQL_FILE_SETTING_NAME: &'static str = "session_init_sql_file";

/// What the settings table says of the `session_init_sql_file` value.
pub const SESSION_INIT_SQL_FILE_SETTING_DESCRIPTION: &'static str =
    "Path to an SQL file that is run when a connection is opened";

/// The subkey that lists the data sources of a scope, each with the label
/// of its driver.
pub const DS_LISTING_SUBPATH: &'static str = "ODBC Data Sources";

/// The label under which the data sources of this driver are listed.
pub const DRIVER_LISTING_LABEL: &'static str = "DuckDB Driver";

/// What is stored as the database of a data source that is kept in memory.
pub const MEMORY_DATABASE_MARKER: &'static str = ":memory:";

/// Whether a data source belongs to the current user or to the machine.
#[derive(Debug, Clone, Copy, PartialEq, Eq, Hash, Structural)]
pub enum DsnType {
    USER,
    SYSTEM,
}

/// A root of the registry.
#[derive(Debug, Clone, Copy, PartialEq, Eq, Hash, Structural)]
pub enum Root {
    HKLM,
    HKCU,
}

/// The root under which the data sources of a scope are kept.
pub open spec fn scope_root(dsn_type: DsnType) -> Root {
    match dsn_type {
        DsnType::USER => Root::HKCU,
        DsnType::SYSTEM => Root::HKLM,
    }
}

/// The name by which a root goes in messages.
pub open spec fn root_label(root: Root) -> Seq<char> {
    match root {
        Root::HKLM => "HKLM"@,
        Root::HKCU => "HKCU"@,
    }
}

impl DsnType {
    /// The root under which the data sources of this scope are kept.
    pub fn root(self) -> (root: Root)
        ensures
            root == scope_root(self),
    {
        match self {
            DsnType::USER => Root::HKCU,
            DsnType::SYSTEM => Root::HKLM,
        }
    }
}

impl Root {
    /// The name by which the root goes in messages.
    pub fn label(self) -> (label: &'static str)
        ensures
            label@ == root_label(self),
    {
        match self {
            Root::HKLM => "HKLM",
            Root::HKCU => "HKCU",
        }
    }
}

/// A value as it is stored under the key of a data source.
#[derive(Debug, PartialEq, Eq)]
pub struct RegistrySetting {
    pub name: String,
    pub value: String,
}

/// A name with the value stored under it.
pub struct SettingEntry {
    pub name: Seq<char>,
    pub value: Seq<char>,
}

impl View for RegistrySetting {
    type V = SettingEntry;

    open spec fn view(&self) -> SettingEntry {
        SettingEntry { name: self.name@, value: self.value@ }
    }
}

impl DeepView for RegistrySetting {
    type V = SettingEntry;

    open spec fn deep_view(&self) -> SettingEntry {
        self@
    }
}

impl Clone for RegistrySetting {
    fn clone(&self) -> (copy: Self)
        ensures
            copy == *self,
    {
        Self { name: self.name.clone(), value: self.value.clone() }
    }
}

/// The names of the values.
pub open spec fn entry_names(entries: Seq<SettingEntry>) -> Seq<Seq<char>> {
    entries.map_values(|entry: SettingEntry| entry.name)
}

/// A data source: its name, its scope and the values stored with it, as
/// one listing found them.
#[derive(Debug, PartialEq, Eq)]
pub struct RegistryDsn {
    pub name: String,
    pub dsn_type: DsnType,
    pub settings: Vec<RegistrySetting>,
}

/// The name, the scope and the values of a data source.
pub struct DsnRecord {
    pub name: Seq<char>,
    pub scope: DsnType,
    pub settings: Seq<SettingEntry>,
}

impl View for RegistryDsn {
    type V = DsnRecord;

    open spec fn view(&self) -> DsnRecord {
        DsnRecord { name: self.name@, scope: self.dsn_type, settings: self.settings.deep_view() }
    }
}

impl DeepView for RegistryDsn {
    type V = DsnRecord;

    open spec fn deep_view(&self) -> DsnRecord {
        self@
    }
}

impl Default for RegistryDsn {
    /// A data source of the current user without a name or values.
    fn default() -> (dsn: Self)
        ensures
            dsn@ == (DsnRecord { name: Seq::empty(), scope: DsnType::USER, settings: Seq::empty() }),
    {
        let dsn = Self { name: String::new(), dsn_type: DsnType::USER, settings: Vec::new() };
        assert(dsn.settings.deep_view() =~= Seq::empty());
        dsn
    }
}

/// A copy of the values of a data source.
pub fn clone_settings(settings: &Vec<RegistrySetting>) -> (copy: Vec<RegistrySetting>)
    ensures
        copy.deep_view() == settings.deep_view(),
{
    let mut copy: Vec<RegistrySetting> = Vec::new();
    let mut i: usize = 0;
    while i < settings.len()
        invariant
            i <= settings.len(),
            copy@.len() == i,
            forall|k: int| 0 <= k < i ==> (#[trigger] copy@[k])@ == settings@[k]@,
        decreases settings.len() - i,
    {
        copy.push(settings[i].clone());
        i += 1;
    }
    assert(copy.deep_view() =~= settings.deep_view());
    copy
}

impl Clone for RegistryDsn {
    fn clone(&self) -> (copy: Self)
        ensures
            copy@ == self@,
    {
        Self {
            name: self.name.clone(),
            dsn_type: self.dsn_type,
            settings: clone_settings(&self.settings),
        }
    }
}

/// Starts reading the path of the driver's file from the registration of
/// the driver. The exchange yields the path as a text.
pub fn duckdb_driver_path() -> (exchange: Exchange)
    ensures
        exchange@ == begin(OperationView::DriverPath),
{
    Exchange::new(Operation::DriverPath)
}

/// Starts listing the names of the subkeys of the key at `path` below
/// `root`. The exchange yields the names that could be read.
pub fn list_subkeys(root: Root, path: &str) -> (exchange: Exchange)
    ensures
        exchange@ == begin(OperationView::ListSubkeys { root, path: path@ }),
{
    Exchange::new(Operation::ListSubkeys { root, path: path.to_string() })
}

/// Starts listing the values of the key at `path` below `root`. The
/// exchange yields the values that could be read, each as a text.
pub fn list_values(root: Root, path: &str) -> (exchange: Exchange)
    ensures
        exchange@ == begin(OperationView::ListValues { root, path: path@ }),
{
    Exchange::new(Operation::ListValues { root, path: path.to_string() })
}

/// Starts making a data source of the driver in a scope, with its
/// database. The exchange fails where the name is taken in the scope.
pub fn create_dsn(dsn_type: DsnType, name: &str, database: &str) -> (exchange: Exchange)
    ensures
        exchange@ == begin(OperationView::CreateDsn { dsn_type, name: name@, database: database@ }),
{
    Exchange::new(
        Operation::CreateDsn { dsn_type, name: name.to_string(), database: database.to_string() },
    )
}

/// Starts deleting a data source of a scope, with its values and its
/// entry in the listing.
pub fn delete_dsn(dsn_type: DsnType, name: &str) -> (exchange: Exchange)
    ensures
        exchange@ == begin(OperationView::DeleteDsn { dsn_type, name: name@ }),
{
    Exchange::new(Operation::DeleteDsn { dsn_type, name: name.to_string() })
}

/// Starts setting a value of a data source: the value is made where it is
/// not there, and replaced where it is.
pub fn set_dsn_value(dsn_type: DsnType, dsn_name: &str, st_name: &str, value: &str) -> (exchange: Exchange)
    ensures
        exchange@ == begin(
            OperationView::SetValue { dsn_type, dsn_name: dsn_name@, name: st_name@, value: value@ },
        ),
{
    Exchange::new(
        Operation::SetValue {
            dsn_type,
            dsn_name: dsn_name.to_string(),
            name: st_name.to_string(),
            value: value.to_string(),
        },
    )
}

/// Starts deleting a value of a data source.
pub fn delete_dsn_value(dsn_type: DsnType, dsn_name: &str, st_name: &str) -> (exchange: Exchange)
    ensures
        exchange@ == begin(OperationView::DeleteValue { dsn_type, dsn_name: dsn_name@, name: st_name@ }),
{
    Exchange::new(
        Operation::DeleteValue {
            dsn_type,
            dsn_name: dsn_name.to_string(),
            name: st_name.to_string(),
        },
    )
}

/// The path of the key of a data source below the root of its scope.
pub fn dsn_subpath(name: &str) -> (path: String)
    ensures
        path@ == child_path(ODBC_INI_SUBPATH@, name@),
{
    KeyRef::new(Root::HKLM, ODBC_INI_SUBPATH).child(name).path
}

} // verus!
