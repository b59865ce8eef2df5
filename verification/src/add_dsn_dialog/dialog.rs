//! What the dialog that adds a data source takes from its fields: whether
//! the data source can be saved, and what is made when it is.

use vstd::prelude::*;
use vstd::string::*;

use crate::common::exchange::{begin, Exchange, OperationView};
use crate::common::registry::{create_dsn, DsnType, MEMORY_DATABASE_MARKER};
use crate::common::text::same_text;

verus! {

/// What the dialog ends with: the name of the data source that was
/// added, or nothing where the dialog was cancelled.
#[derive(Debug)]
pub struct AddDsnDialogResult {
    pub added_dsn: Option<String>,
}

impl AddDsnDialogResult {
    /// A data source of the given name was added.
    pub fn success(name: &str) -> (result: Self)
        ensures
            result.added_dsn.deep_view() == Some(name@),
    {
        Self { added_dsn: Some(name.to_string()) }
    }

    /// The dialog was cancelled.
    pub fn cancelled() -> (result: Self)
        ensures
            result.added_dsn is None,
    {
        Self { added_dsn: None }
    }
}

impl Default for AddDsnDialogResult {
    fn default() -> (result: Self)
        ensures
            result.added_dsn is None,
    {
        Self { added_dsn: None }
    }
}

impl Clone for AddDsnDialogResult {
    fn clone(&self) -> (copy: Self)
        ensures
            copy.added_dsn.deep_view() == self.added_dsn.deep_view(),
    {
        match &self.added_dsn {
            Some(name) => Self { added_dsn: Some(name.clone()) },
            None => Self { added_dsn: None },
        }
    }
}

/// The entry of the scope list that stands for the machine; every other
/// entry stands for the current user.
pub const SYSTEM_SCOPE_LABEL: &'static str = "System";

/// The data source that is to be made.
#[derive(Debug)]
pub struct NewDsn {
    pub dsn_type: DsnType,
    pub name: String,
    pub database: String,
}

/// The scope, the name and the database of a [`NewDsn`].
pub struct NewDsnView {
    pub scope: DsnType,
    pub name: Seq<char>,
    pub database: Seq<char>,
}

impl View for NewDsn {
    type V = NewDsnView;

    open spec fn view(&self) -> NewDsnView {
        NewDsnView { scope: self.dsn_type, name: self.name@, database: self.database@ }
    }
}

impl DeepView for NewDsn {
    type V = NewDsnView;

    open spec fn deep_view(&self) -> NewDsnView {
        self@
    }
}

/// The database of the data source: the marker of a database in memory
/// where that is chosen, else the path that was entered.
pub open spec fn chosen_database(in_memory: bool, dbpath: Seq<char>) -> Seq<char> {
    if in_memory {
        MEMORY_DATABASE_MARKER@
    } else {
        dbpath
    }
}

/// The scope that an entry of the scope list stands for.
pub open spec fn chosen_scope(label: Seq<char>) -> DsnType {
    if label == SYSTEM_SCOPE_LABEL@ {
        DsnType::SYSTEM
    } else {
        DsnType::USER
    }
}

/// The data source that the fields of the dialog describe: there is none
/// where the name or the database is empty, or where no scope is
/// selected.
pub open spec fn described_dsn(
    name: Seq<char>,
    in_memory: bool,
    dbpath: Seq<char>,
    scope_label: Option<Seq<char>>,
) -> Option<NewDsnView> {
    if name.len() == 0 || chosen_database(in_memory, dbpath).len() == 0 || scope_label is None
        || scope_label->0.len() == 0 {
        None
    } else {
        Some(
            NewDsnView {
                scope: chosen_scope(scope_label->0),
                name,
                database: chosen_database(in_memory, dbpath),
            },
        )
    }
}

/// The data source that is made when the dialog is saved, if its fields
/// describe one.
pub fn new_dsn_request(name: &str, in_memory: bool, dbpath: &str, scope_label: Option<&str>) -> (request:
    Option<NewDsn>)
    ensures
        request.deep_view() == described_dsn(name@, in_memory, dbpath@, scope_label.deep_view()),
{
    if name.is_empty() {
        return None;
    }
    let database = if in_memory {
        MEMORY_DATABASE_MARKER.to_string()
    } else {
        dbpath.to_string()
    };
    if database.as_str().is_empty() {
        return None;
    }
    let label = match scope_label {
        Some(label) => label,
        None => {
            return None;
        },
    };
    if label.is_empty() {
        return None;
    }
    let dsn_type = if same_text(SYSTEM_SCOPE_LABEL, label) {
        DsnType::SYSTEM
    } else {
        DsnType::USER
    };
    Some(NewDsn { dsn_type, name: name.to_string(), database })
}

/// Starts making the data source.
pub fn create_new_dsn(request: &NewDsn) -> (exchange: Exchange)
    ensures
        exchange@ == begin(
            OperationView::CreateDsn {
                dsn_type: request@.scope,
                name: request@.name,
                database: request@.database,
            },
        ),
{
    create_dsn(request.dsn_type, request.name.as_str(), request.database.as_str())
}

/// Whether the dialog can be saved: there is a name, and a path of the
/// database or the choice of a database in memory.
pub fn can_save(name: &str, dbpath: &str, in_memory: bool) -> (enabled: bool)
    ensures
        enabled == (name@.len() > 0 && (dbpath@.len() > 0 || in_memory)),
{
    let has_name = !name.is_empty();
    let has_db = !dbpath.is_empty();
    has_name && (has_db || in_memory)
}

/// How the field and the button for the path of the database stand.
#[derive(Debug, Clone, Copy, PartialEq, Eq, Structural)]
pub struct DbPathControls {
    /// The path that was entered is cleared.
    pub clear_path: bool,
    /// The path cannot be edited.
    pub path_readonly: bool,
    /// The button that chooses a file is enabled.
    pub chooser_enabled: bool,
}

/// How the field and the button for the path of the database stand once
/// the choice of a database in memory has changed: with it the path is
/// cleared and locked, without it the path can be entered again.
pub fn on_memory_checkbox_changed(checked: bool) -> (controls: DbPathControls)
    ensures
        controls == (DbPathControls {
            clear_path: checked,
            path_readonly: checked,
            chooser_enabled: !checked,
        }),
{
    DbPathControls { clear_path: checked, path_readonly: checked, chooser_enabled: !checked }
}

} // verus!
