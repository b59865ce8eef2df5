//! The exchanges with the registry: for each operation on the data
//! sources, the requests that it puts to the registry, one after the
//! other, and what becomes of each reply.
//!
//! An exchange is at one stage at a time. Its stage decides the request
//! that is pending. The reply to it either moves the exchange to its next
//! stage or ends it, with the result of the operation or with the error of
//! the stage that failed. Nothing that was done before a failure is
//! undone.

use vstd::prelude::*;
use vstd::string::*;

use crate::common::config_error::ConfigError;
use crate::common::protocol::{
    child_path, readable, readable_names, readable_values, Access, KeyPath, KeyRef, RegistryReply,
    RegistryRequest, ReplyView, RequestView,
};
use crate::common::registry::{
    root_label, scope_root, DsnType, RegistrySetting, Root, SettingEntry, DATABASE_SETTING_NAME,
    DRIVER_KEY_PATH, DRIVER_LISTING_LABEL, DRIVER_SETTING_NAME, DS_LISTING_SUBPATH,
    ODBC_INI_SUBPATH,
};

verus! {

/// An operation on the data sources or on the keys that hold them.
#[derive(Debug, PartialEq, Eq)]
pub enum Operation {
    /// Read the path of the driver's file from its registration.
    DriverPath,
    /// List the names of the subkeys of a key.
    ListSubkeys { root: Root, path: String },
    /// List the values of a key.
    ListValues { root: Root, path: String },
    /// Make a data source for the driver, with its database.
    CreateDsn { dsn_type: DsnType, name: String, database: String },
    /// Delete a data source.
    DeleteDsn { dsn_type: DsnType, name: String },
    /// Set a value of a data source.
    SetValue { dsn_type: DsnType, dsn_name: String, name: String, value: String },
    /// Delete a value of a data source.
    DeleteValue { dsn_type: DsnType, dsn_name: String, name: String },
}

/// What an [`Operation`] is to do.
pub enum OperationView {
    DriverPath,
    ListSubkeys { root: Root, path: Seq<char> },
    ListValues { root: Root, path: Seq<char> },
    CreateDsn { dsn_type: DsnType, name: Seq<char>, database: Seq<char> },
    DeleteDsn { dsn_type: DsnType, name: Seq<char> },
    SetValue { dsn_type: DsnType, dsn_name: Seq<char>, name: Seq<char>, value: Seq<char> },
    DeleteValue { dsn_type: DsnType, dsn_name: Seq<char>, name: Seq<char> },
}

impl View for Operation {
    type V = OperationView;

    open spec fn view(&self) -> OperationView {
        match self {
            Operation::DriverPath => OperationView::DriverPath,
            Operation::ListSubkeys { root, path } => OperationView::ListSubkeys { root: *root, path: path@ },
            Operation::ListValues { root, path } => OperationView::ListValues { root: *root, path: path@ },
            Operation::CreateDsn { dsn_type, name, database } => OperationView::CreateDsn {
                dsn_type: *dsn_type,
                name: name@,
                database: database@,
            },
            Operation::DeleteDsn { dsn_type, name } => OperationView::DeleteDsn {
                dsn_type: *dsn_type,
                name: name@,
            },
            Operation::SetValue { dsn_type, dsn_name, name, value } => OperationView::SetValue {
                dsn_type: *dsn_type,
                dsn_name: dsn_name@,
                name: name@,
                value: value@,
            },
            Operation::DeleteValue { dsn_type, dsn_name, name } => OperationView::DeleteValue {
                dsn_type: *dsn_type,
                dsn_name: dsn_name@,
                name: name@,
            },
        }
    }
}

/// What an operation yields where it succeeds.
#[derive(Debug, PartialEq, Eq)]
pub enum Outcome {
    /// The operation was done; it yields nothing.
    Done,
    /// The path of the driver's file.
    Text(String),
    /// The names of the subkeys.
    Names(Vec<String>),
    /// The values of the key.
    Settings(Vec<RegistrySetting>),
}

/// What an [`Outcome`] holds.
pub enum OutcomeView {
    Done,
    Text(Seq<char>),
    Names(Seq<Seq<char>>),
    Settings(Seq<SettingEntry>),
}

impl View for Outcome {
    type V = OutcomeView;

    open spec fn view(&self) -> OutcomeView {
        match self {
            Outcome::Done => OutcomeView::Done,
            Outcome::Text(text) => OutcomeView::Text(text@),
            Outcome::Names(names) => OutcomeView::Names(names.deep_view()),
            Outcome::Settings(settings) => OutcomeView::Settings(settings.deep_view()),
        }
    }
}

/// The key under which the driver is registered.
pub open spec fn driver_key() -> KeyPath {
    KeyPath { root: Root::HKLM, path: DRIVER_KEY_PATH@ }
}

/// The key that holds the data sources of a scope.
pub open spec fn odbc_ini_key(dsn_type: DsnType) -> KeyPath {
    KeyPath { root: scope_root(dsn_type), path: ODBC_INI_SUBPATH@ }
}

/// The key of a data source.
pub open spec fn dsn_key(dsn_type: DsnType, name: Seq<char>) -> KeyPath {
    odbc_ini_key(dsn_type).child(name)
}

/// The key that lists the data sources of a scope.
pub open spec fn listing_key(dsn_type: DsnType) -> KeyPath {
    odbc_ini_key(dsn_type).child(DS_LISTING_SUBPATH@)
}

/// The message for a key that cannot be opened.
pub open spec fn cannot_open_text(root: Root, path: Seq<char>, cause: Seq<char>) -> Seq<char> {
    "Cannot open registry key, path: '"@ + root_label(root) + "\\"@ + path + "', message: "@ + cause
}

/// The message for a driver that is not registered.
pub open spec fn driver_not_found_text(cause: Seq<char>) -> Seq<char> {
    "DuckDB Driver not found in registry, path: 'HKLM\\"@ + DRIVER_KEY_PATH@ + "', message: "@ + cause
}

/// The message for a registration without a readable path of the driver.
pub open spec fn driver_unreadable_text(cause: Seq<char>) -> Seq<char> {
    "Error reading the 'Driver' value from registry key: 'HKLM\\"@ + DRIVER_KEY_PATH@
        + "', message: "@ + cause
}

/// The message for a data source whose name is taken.
pub open spec fn already_exists_text(name: Seq<char>) -> Seq<char> {
    "Data source already exist, name: "@ + name
}

/// The message for a reply that is none to the pending request.
pub open spec fn unexpected_reply_text() -> Seq<char> {
    "Unexpected reply from registry"@
}

/// The number of requests that an operation makes where none fails.
pub open spec fn stage_count(op: OperationView) -> nat {
    match op {
        OperationView::DriverPath => 2,
        OperationView::ListSubkeys { .. } => 2,
        OperationView::ListValues { .. } => 2,
        OperationView::CreateDsn { .. } => 10,
        OperationView::DeleteDsn { .. } => 4,
        OperationView::SetValue { .. } => 2,
        OperationView::DeleteValue { .. } => 2,
    }
}

/// The two requests that read the path of the driver's file: open the
/// registration, then read its value.
pub open spec fn driver_request(stage: nat) -> RequestView {
    if stage == 0 {
        RequestView::OpenKey { key: driver_key(), access: Access::Read }
    } else {
        RequestView::GetValue { key: driver_key(), name: DRIVER_SETTING_NAME@ }
    }
}

/// The requests that make a data source: open the key of the scope; try
/// to open the data source, which must fail; make its key and open it;
/// read the path of the driver; set the two values of the data source;
/// open the listing and enter the data source there.
pub open spec fn create_request(
    dsn_type: DsnType,
    name: Seq<char>,
    database: Seq<char>,
    stage: nat,
    driver_path: Seq<char>,
) -> RequestView {
    if stage == 0 {
        RequestView::OpenKey { key: odbc_ini_key(dsn_type), access: Access::Read }
    } else if stage == 1 {
        RequestView::OpenSubkey { parent: odbc_ini_key(dsn_type), name, access: Access::Read }
    } else if stage == 2 {
        RequestView::CreateSubkey { parent: odbc_ini_key(dsn_type), name }
    } else if stage == 3 {
        RequestView::OpenSubkey { parent: odbc_ini_key(dsn_type), name, access: Access::SetValue }
    } else if stage == 4 || stage == 5 {
        driver_request((stage - 4) as nat)
    } else if stage == 6 {
        RequestView::SetValue {
            key: dsn_key(dsn_type, name),
            name: DRIVER_SETTING_NAME@,
            value: driver_path,
        }
    } else if stage == 7 {
        RequestView::SetValue {
            key: dsn_key(dsn_type, name),
            name: DATABASE_SETTING_NAME@,
            value: database,
        }
    } else if stage == 8 {
        RequestView::OpenSubkey {
            parent: odbc_ini_key(dsn_type),
            name: DS_LISTING_SUBPATH@,
            access: Access::SetValue,
        }
    } else {
        RequestView::SetValue { key: listing_key(dsn_type), name, value: DRIVER_LISTING_LABEL@ }
    }
}

/// The requests that delete a data source: open the key of the scope,
/// delete the key of the data source, open the listing and delete the
/// entry of the data source there.
pub open spec fn delete_request(dsn_type: DsnType, name: Seq<char>, stage: nat) -> RequestView {
    if stage == 0 {
        RequestView::OpenKey { key: odbc_ini_key(dsn_type), access: Access::Write }
    } else if stage == 1 {
        RequestView::DeleteSubkey { parent: odbc_ini_key(dsn_type), name }
    } else if stage == 2 {
        RequestView::OpenSubkey {
            parent: odbc_ini_key(dsn_type),
            name: DS_LISTING_SUBPATH@,
            access: Access::SetValue,
        }
    } else {
        RequestView::DeleteValue { key: listing_key(dsn_type), name }
    }
}

/// The request that an operation makes at a stage. `driver_path` is the
/// path of the driver as far as the operation has read it.
pub open spec fn request_at(op: OperationView, stage: nat, driver_path: Seq<char>) -> RequestView {
    match op {
        OperationView::DriverPath => driver_request(stage),
        OperationView::ListSubkeys { root, path } => if stage == 0 {
            RequestView::OpenKey { key: KeyPath { root, path }, access: Access::Read }
        } else {
            RequestView::EnumKeys { key: KeyPath { root, path } }
        },
        OperationView::ListValues { root, path } => if stage == 0 {
            RequestView::OpenKey { key: KeyPath { root, path }, access: Access::Read }
        } else {
            RequestView::EnumValues { key: KeyPath { root, path } }
        },
        OperationView::CreateDsn { dsn_type, name, database } => create_request(
            dsn_type,
            name,
            database,
            stage,
            driver_path,
        ),
        OperationView::DeleteDsn { dsn_type, name } => delete_request(dsn_type, name, stage),
        OperationView::SetValue { dsn_type, dsn_name, name, value } => if stage == 0 {
            RequestView::OpenKey { key: dsn_key(dsn_type, dsn_name), access: Access::SetValue }
        } else {
            RequestView::SetValue { key: dsn_key(dsn_type, dsn_name), name, value }
        },
        OperationView::DeleteValue { dsn_type, dsn_name, name } => if stage == 0 {
            RequestView::OpenKey { key: dsn_key(dsn_type, dsn_name), access: Access::SetValue }
        } else {
            RequestView::DeleteValue { key: dsn_key(dsn_type, dsn_name), name }
        },
    }
}

/// The message of a failure while the path of the driver is read.
pub open spec fn driver_failure_text(stage: nat, cause: Seq<char>) -> Seq<char> {
    if stage == 0 {
        driver_not_found_text(cause)
    } else {
        driver_unreadable_text(cause)
    }
}

/// The message with which an operation ends where its request at a stage
/// fails: that the key of the operation cannot be opened, that the path of
/// the driver cannot be had, or else the message of the system as it is.
pub open spec fn failure_text(op: OperationView, stage: nat, cause: Seq<char>) -> Seq<char> {
    match op {
        OperationView::DriverPath => driver_failure_text(stage, cause),
        OperationView::ListSubkeys { root, path } => if stage == 0 {
            cannot_open_text(root, path, cause)
        } else {
            cause
        },
        OperationView::ListValues { root, path } => if stage == 0 {
            cannot_open_text(root, path, cause)
        } else {
            cause
        },
        OperationView::CreateDsn { dsn_type, .. } => if stage == 0 {
            cannot_open_text(scope_root(dsn_type), ODBC_INI_SUBPATH@, cause)
        } else if stage == 4 || stage == 5 {
            driver_failure_text((stage - 4) as nat, cause)
        } else {
            cause
        },
        OperationView::DeleteDsn { dsn_type, .. } => if stage == 0 {
            cannot_open_text(scope_root(dsn_type), ODBC_INI_SUBPATH@, cause)
        } else {
            cause
        },
        OperationView::SetValue { dsn_type, dsn_name, .. } => if stage == 0 {
            cannot_open_text(scope_root(dsn_type), child_path(ODBC_INI_SUBPATH@, dsn_name), cause)
        } else {
            cause
        },
        OperationView::DeleteValue { dsn_type, dsn_name, .. } => if stage == 0 {
            cannot_open_text(scope_root(dsn_type), child_path(ODBC_INI_SUBPATH@, dsn_name), cause)
        } else {
            cause
        },
    }
}

/// Whether the stage is the one that tries to open the data source that
/// is to be made: there the failure is what lets the operation go on.
pub open spec fn is_probe(op: OperationView, stage: nat) -> bool {
    op is CreateDsn && stage == 1
}

/// Whether a reply other than a failure is one to the request: a text for
/// a value that is read, the names or the values for a listing, and for
/// every other request the word that it was done.
pub open spec fn reply_fits(request: RequestView, reply: ReplyView) -> bool {
    match request {
        RequestView::GetValue { .. } => reply is Text,
        RequestView::EnumKeys { .. } => reply is Names,
        RequestView::EnumValues { .. } => reply is Values,
        _ => reply is Done,
    }
}

/// What the last reply of an operation yields.
pub open spec fn outcome_of(reply: ReplyView) -> OutcomeView {
    match reply {
        ReplyView::Text(text) => OutcomeView::Text(text),
        ReplyView::Names(items) => OutcomeView::Names(readable(items)),
        ReplyView::Values(items) => OutcomeView::Settings(readable(items)),
        _ => OutcomeView::Done,
    }
}

/// An operation under way: its stage, and the path of the driver as far
/// as it was read.
pub struct ExchangeView {
    pub op: OperationView,
    pub stage: nat,
    pub driver_path: Seq<char>,
}

/// Where an exchange stands after a reply.
pub enum AdvanceView {
    /// The exchange goes on with its next request.
    Continue(ExchangeView),
    /// The exchange has ended, with what the operation yields or with the
    /// message of its error.
    Finished(Result<OutcomeView, Seq<char>>),
}

/// An operation before its first request.
pub open spec fn begin(op: OperationView) -> ExchangeView {
    ExchangeView { op, stage: 0, driver_path: Seq::empty() }
}

/// The request that is pending in an exchange.
pub open spec fn pending(exchange: ExchangeView) -> RequestView {
    request_at(exchange.op, exchange.stage, exchange.driver_path)
}

/// Where an exchange stands after the reply to its pending request.
///
/// A failure ends the operation with the message of the stage, but for
/// the stage that tries to open a data source that is to be made: there
/// the failure moves the operation on, and success ends it, since the name
/// is taken. A reply that is none to the request ends the operation. Any
/// other reply moves the operation to its next stage, with the path of the
/// driver where the reply holds it, or ends it with what the reply yields
/// where the stage was the last.
pub open spec fn after_reply(exchange: ExchangeView, reply: ReplyView) -> AdvanceView {
    let next = ExchangeView {
        op: exchange.op,
        stage: exchange.stage + 1,
        driver_path: match reply {
            ReplyView::Text(text) => text,
            _ => exchange.driver_path,
        },
    };
    match reply {
        ReplyView::Failed(cause) => if is_probe(exchange.op, exchange.stage) {
            AdvanceView::Continue(next)
        } else {
            AdvanceView::Finished(Err(failure_text(exchange.op, exchange.stage, cause)))
        },
        _ => if !reply_fits(pending(exchange), reply) {
            AdvanceView::Finished(Err(unexpected_reply_text()))
        } else if is_probe(exchange.op, exchange.stage) {
            AdvanceView::Finished(Err(already_exists_text(exchange.op->CreateDsn_name)))
        } else if exchange.stage + 1 < stage_count(exchange.op) {
            AdvanceView::Continue(next)
        } else {
            AdvanceView::Finished(Ok(outcome_of(reply)))
        },
    }
}

/// The key that a request opens, if it opens one.
pub open spec fn opened_key(request: RequestView) -> Option<KeyPath> {
    match request {
        RequestView::OpenKey { key, .. } => Some(key),
        RequestView::OpenSubkey { parent, name, .. } => Some(parent.child(name)),
        _ => None,
    }
}

/// The key that has to be open for a request, if it works on one.
pub open spec fn needed_key(request: RequestView) -> Option<KeyPath> {
    match request {
        RequestView::OpenKey { .. } => None,
        RequestView::OpenSubkey { parent, .. } => Some(parent),
        RequestView::CreateSubkey { parent, .. } => Some(parent),
        RequestView::DeleteSubkey { parent, .. } => Some(parent),
        RequestView::GetValue { key, .. } => Some(key),
        RequestView::SetValue { key, .. } => Some(key),
        RequestView::DeleteValue { key, .. } => Some(key),
        RequestView::EnumKeys { key } => Some(key),
        RequestView::EnumValues { key } => Some(key),
    }
}

/// The stage at which an operation opens the key that it works on at the
/// given stage.
pub open spec fn opening_stage(op: OperationView, stage: nat) -> nat {
    match op {
        OperationView::CreateDsn { .. } => if stage == 5 {
            4
        } else if stage == 6 || stage == 7 {
            3
        } else if stage == 9 {
            8
        } else {
            0
        },
        OperationView::DeleteDsn { .. } => if stage == 3 {
            2
        } else {
            0
        },
        _ => 0,
    }
}

/// Every request of an operation works on a key that an earlier request
/// of the operation has opened; and that request was not the one whose
/// failure lets the operation go on, so that the key is open when the
/// operation comes to the later stage.
pub proof fn lemma_requests_work_on_open_keys(
    op: OperationView,
    stage: nat,
    driver_path: Seq<char>,
    earlier_path: Seq<char>,
)
    requires
        stage < stage_count(op),
        needed_key(request_at(op, stage, driver_path)) is Some,
    ensures
        opening_stage(op, stage) < stage,
        !is_probe(op, opening_stage(op, stage)),
        opened_key(request_at(op, opening_stage(op, stage), earlier_path)) == needed_key(
            request_at(op, stage, driver_path),
        ),
{
}

/// The result of an operation: what it yields, or the message of its
/// error.
pub open spec fn result_view(result: Result<Outcome, ConfigError>) -> Result<OutcomeView, Seq<char>> {
    match result {
        Ok(outcome) => Ok(outcome@),
        Err(error) => Err(error@),
    }
}

/// The message for a key that cannot be opened.
fn cannot_open_message(root: Root, path: &str, cause: &str) -> (text: String)
    ensures
        text@ == cannot_open_text(root, path@, cause@),
{
    let mut text = "Cannot open registry key, path: '".to_string();
    text.append(root.label());
    text.append("\\");
    text.append(path);
    text.append("', message: ");
    text.append(cause);
    text
}

/// The message of a failure while the path of the driver is read.
fn driver_failure_message(stage: usize, cause: &str) -> (text: String)
    ensures
        text@ == driver_failure_text(stage as nat, cause@),
{
    let mut text = if stage == 0 {
        "DuckDB Driver not found in registry, path: 'HKLM\\".to_string()
    } else {
        "Error reading the 'Driver' value from registry key: 'HKLM\\".to_string()
    };
    text.append(DRIVER_KEY_PATH);
    text.append("', message: ");
    text.append(cause);
    text
}

/// The message for a data source whose name is taken.
fn already_exists_message(name: &str) -> (text: String)
    ensures
        text@ == already_exists_text(name@),
{
    let mut text = "Data source already exist, name: ".to_string();
    text.append(name);
    text
}

/// The key under which the driver is registered.
fn driver_key_ref() -> (key: KeyRef)
    ensures
        key@ == driver_key(),
{
    KeyRef::new(Root::HKLM, DRIVER_KEY_PATH)
}

/// The key that holds the data sources of a scope.
fn odbc_ini_ref(dsn_type: DsnType) -> (key: KeyRef)
    ensures
        key@ == odbc_ini_key(dsn_type),
{
    KeyRef::new(dsn_type.root(), ODBC_INI_SUBPATH)
}

/// The key of a data source.
fn dsn_ref(dsn_type: DsnType, name: &str) -> (key: KeyRef)
    ensures
        key@ == dsn_key(dsn_type, name@),
{
    odbc_ini_ref(dsn_type).child(name)
}

/// The key that lists the data sources of a scope.
fn listing_ref(dsn_type: DsnType) -> (key: KeyRef)
    ensures
        key@ == listing_key(dsn_type),
{
    odbc_ini_ref(dsn_type).child(DS_LISTING_SUBPATH)
}

/// The request that opens the key at a path below a root.
pub fn open_key(root: Root, path: &str, access: Access) -> (request: RegistryRequest)
    ensures
        request@ == (RequestView::OpenKey { key: KeyPath { root, path: path@ }, access }),
{
    RegistryRequest::OpenKey { key: KeyRef::new(root, path), access }
}

/// One of the two requests that read the path of the driver's file.
fn driver_request_at(stage: usize) -> (request: RegistryRequest)
    ensures
        request@ == driver_request(stage as nat),
{
    if stage == 0 {
        open_key(Root::HKLM, DRIVER_KEY_PATH, Access::Read)
    } else {
        RegistryRequest::GetValue { key: driver_key_ref(), name: DRIVER_SETTING_NAME.to_string() }
    }
}

/// One of the requests that make a data source.
fn create_request_at(dsn_type: DsnType, name: &str, database: &str, stage: usize, driver_path: &str) -> (request:
    RegistryRequest)
    ensures
        request@ == create_request(dsn_type, name@, database@, stage as nat, driver_path@),
{
    if stage == 0 {
        open_key(dsn_type.root(), ODBC_INI_SUBPATH, Access::Read)
    } else if stage == 1 {
        RegistryRequest::OpenSubkey {
            parent: odbc_ini_ref(dsn_type),
            name: name.to_string(),
            access: Access::Read,
        }
    } else if stage == 2 {
        RegistryRequest::CreateSubkey { parent: odbc_ini_ref(dsn_type), name: name.to_string() }
    } else if stage == 3 {
        RegistryRequest::OpenSubkey {
            parent: odbc_ini_ref(dsn_type),
            name: name.to_string(),
            access: Access::SetValue,
        }
    } else if stage == 4 || stage == 5 {
        driver_request_at(stage - 4)
    } else if stage == 6 {
        RegistryRequest::SetValue {
            key: dsn_ref(dsn_type, name),
            name: DRIVER_SETTING_NAME.to_string(),
            value: driver_path.to_string(),
        }
    } else if stage == 7 {
        RegistryRequest::SetValue {
            key: dsn_ref(dsn_type, name),
            name: DATABASE_SETTING_NAME.to_string(),
            value: database.to_string(),
        }
    } else if stage == 8 {
        RegistryRequest::OpenSubkey {
            parent: odbc_ini_ref(dsn_type),
            name: DS_LISTING_SUBPATH.to_string(),
            access: Access::SetValue,
        }
    } else {
        RegistryRequest::SetValue {
            key: listing_ref(dsn_type),
            name: name.to_string(),
            value: DRIVER_LISTING_LABEL.to_string(),
        }
    }
}

/// One of the requests that delete a data source.
fn delete_request_at(dsn_type: DsnType, name: &str, stage: usize) -> (request: RegistryRequest)
    ensures
        request@ == delete_request(dsn_type, name@, stage as nat),
{
    if stage == 0 {
        open_key(dsn_type.root(), ODBC_INI_SUBPATH, Access::Write)
    } else if stage == 1 {
        RegistryRequest::DeleteSubkey { parent: odbc_ini_ref(dsn_type), name: name.to_string() }
    } else if stage == 2 {
        RegistryRequest::OpenSubkey {
            parent: odbc_ini_ref(dsn_type),
            name: DS_LISTING_SUBPATH.to_string(),
            access: Access::SetValue,
        }
    } else {
        RegistryRequest::DeleteValue { key: listing_ref(dsn_type), name: name.to_string() }
    }
}

/// Whether a reply other than a failure is one to the request.
fn fits(request: &RegistryRequest, reply: &RegistryReply) -> (fitting: bool)
    ensures
        fitting == reply_fits(request@, reply@),
{
    match request {
        RegistryRequest::GetValue { .. } => match reply {
            RegistryReply::Text(_) => true,
            _ => false,
        },
        RegistryRequest::EnumKeys { .. } => match reply {
            RegistryReply::Names(_) => true,
            _ => false,
        },
        RegistryRequest::EnumValues { .. } => match reply {
            RegistryReply::Values(_) => true,
            _ => false,
        },
        _ => match reply {
            RegistryReply::Done => true,
            _ => false,
        },
    }
}

/// What the last reply of an operation yields.
fn outcome_from(reply: RegistryReply) -> (outcome: Outcome)
    ensures
        outcome@ == outcome_of(reply@),
{
    match reply {
        RegistryReply::Text(text) => Outcome::Text(text),
        RegistryReply::Names(items) => Outcome::Names(readable_names(&items)),
        RegistryReply::Values(items) => Outcome::Settings(readable_values(&items)),
        _ => Outcome::Done,
    }
}

/// An operation under way.
#[derive(Debug)]
pub struct Exchange {
    op: Operation,
    stage: usize,
    driver_path: String,
}

/// Where an exchange stands after a reply.
#[derive(Debug)]
pub enum Advance {
    /// The exchange goes on: its next request is to be made.
    Continue(Exchange),
    /// The exchange has ended, with what the operation yields or with its
    /// error.
    Finished(Result<Outcome, ConfigError>),
}

impl View for Exchange {
    type V = ExchangeView;

    closed spec fn view(&self) -> ExchangeView {
        ExchangeView { op: self.op@, stage: self.stage as nat, driver_path: self.driver_path@ }
    }
}

impl View for Advance {
    type V = AdvanceView;

    open spec fn view(&self) -> AdvanceView {
        match self {
            Advance::Continue(exchange) => AdvanceView::Continue(exchange@),
            Advance::Finished(result) => AdvanceView::Finished(result_view(*result)),
        }
    }
}

impl Exchange {
    /// An exchange always has a request pending.
    #[verifier::type_invariant]
    spec fn has_pending(&self) -> bool {
        self.stage < stage_count(self.op@)
    }

    /// The exchange for an operation, before its first request.
    pub fn new(op: Operation) -> (exchange: Self)
        ensures
            exchange@ == begin(op@),
    {
        Exchange { op, stage: 0, driver_path: String::new() }
    }

    /// The request that is pending: the caller makes it and hands the
    /// reply to [`Exchange::advance`].
    pub fn request(&self) -> (request: RegistryRequest)
        ensures
            request@ == pending(self@),
            self@.stage < stage_count(self@.op),
    {
        proof {
            use_type_invariant(self);
        }
        match &self.op {
            Operation::DriverPath => driver_request_at(self.stage),
            Operation::ListSubkeys { root, path } => if self.stage == 0 {
                open_key(*root, path.as_str(), Access::Read)
            } else {
                RegistryRequest::EnumKeys { key: KeyRef::new(*root, path.as_str()) }
            },
            Operation::ListValues { root, path } => if self.stage == 0 {
                open_key(*root, path.as_str(), Access::Read)
            } else {
                RegistryRequest::EnumValues { key: KeyRef::new(*root, path.as_str()) }
            },
            Operation::CreateDsn { dsn_type, name, database } => create_request_at(
                *dsn_type,
                name.as_str(),
                database.as_str(),
                self.stage,
                self.driver_path.as_str(),
            ),
            Operation::DeleteDsn { dsn_type, name } => delete_request_at(
                *dsn_type,
                name.as_str(),
                self.stage,
            ),
            Operation::SetValue { dsn_type, dsn_name, name, value } => if self.stage == 0 {
                RegistryRequest::OpenKey {
                    key: dsn_ref(*dsn_type, dsn_name.as_str()),
                    access: Access::SetValue,
                }
            } else {
                RegistryRequest::SetValue {
                    key: dsn_ref(*dsn_type, dsn_name.as_str()),
                    name: name.clone(),
                    value: value.clone(),
                }
            },
            Operation::DeleteValue { dsn_type, dsn_name, name } => if self.stage == 0 {
                RegistryRequest::OpenKey {
                    key: dsn_ref(*dsn_type, dsn_name.as_str()),
                    access: Access::SetValue,
                }
            } else {
                RegistryRequest::DeleteValue {
                    key: dsn_ref(*dsn_type, dsn_name.as_str()),
                    name: name.clone(),
                }
            },
        }
    }

    /// The message with which the operation ends where the pending
    /// request fails.
    fn failure_message(&self, cause: &str) -> (text: String)
        ensures
            text@ == failure_text(self@.op, self@.stage, cause@),
    {
        match &self.op {
            Operation::DriverPath => driver_failure_message(self.stage, cause),
            Operation::ListSubkeys { root, path } => if self.stage == 0 {
                cannot_open_message(*root, path.as_str(), cause)
            } else {
                cause.to_string()
            },
            Operation::ListValues { root, path } => if self.stage == 0 {
                cannot_open_message(*root, path.as_str(), cause)
            } else {
                cause.to_string()
            },
            Operation::CreateDsn { dsn_type, .. } => if self.stage == 0 {
                cannot_open_message(dsn_type.root(), ODBC_INI_SUBPATH, cause)
            } else if self.stage == 4 || self.stage == 5 {
                driver_failure_message(self.stage - 4, cause)
            } else {
                cause.to_string()
            },
            Operation::DeleteDsn { dsn_type, .. } => if self.stage == 0 {
                cannot_open_message(dsn_type.root(), ODBC_INI_SUBPATH, cause)
            } else {
                cause.to_string()
            },
            Operation::SetValue { dsn_type, dsn_name, .. } => if self.stage == 0 {
                let key = dsn_ref(*dsn_type, dsn_name.as_str());
                cannot_open_message(key.root, key.path.as_str(), cause)
            } else {
                cause.to_string()
            },
            Operation::DeleteValue { dsn_type, dsn_name, .. } => if self.stage == 0 {
                let key = dsn_ref(*dsn_type, dsn_name.as_str());
                cannot_open_message(key.root, key.path.as_str(), cause)
            } else {
                cause.to_string()
            },
        }
    }

    /// Takes the reply to the pending request: the exchange goes on with
    /// its next request, or it has ended.
    pub fn advance(self, reply: RegistryReply) -> (advance: Advance)
        ensures
            advance@ == after_reply(self@, reply@),
    {
        proof {
            use_type_invariant(&self);
        }
        let probe = match &self.op {
            Operation::CreateDsn { .. } => self.stage == 1,
            _ => false,
        };
        match reply {
            RegistryReply::Failed(cause) => {
                if probe {
                    Advance::Continue(
                        Exchange { op: self.op, stage: self.stage + 1, driver_path: self.driver_path },
                    )
                } else {
                    Advance::Finished(Err(ConfigError::from_string(self.failure_message(cause.as_str()))))
                }
            },
            reply => {
                let request = self.request();
                if !fits(&request, &reply) {
                    Advance::Finished(
                        Err(ConfigError::from_string("Unexpected reply from registry".to_string())),
                    )
                } else if probe {
                    match &self.op {
                        Operation::CreateDsn { name, .. } => Advance::Finished(
                            Err(ConfigError::from_string(already_exists_message(name.as_str()))),
                        ),
                        _ => Advance::Finished(Ok(Outcome::Done)),
                    }
                } else if self.stage + 1 < self.stage_total() {
                    let driver_path = match reply {
                        RegistryReply::Text(text) => text,
                        _ => self.driver_path,
                    };
                    Advance::Continue(Exchange { op: self.op, stage: self.stage + 1, driver_path })
                } else {
                    Advance::Finished(Ok(outcome_from(reply)))
                }
            },
        }
    }

    /// The number of requests that the operation makes where none fails.
    fn stage_total(&self) -> (total: usize)
        ensures
            total == stage_count(self@.op),
    {
        match &self.op {
            Operation::DriverPath => 2,
            Operation::ListSubkeys { .. } => 2,
            Operation::ListValues { .. } => 2,
            Operation::CreateDsn { .. } => 10,
            Operation::DeleteDsn { .. } => 4,
            Operation::SetValue { .. } => 2,
            Operation::DeleteValue { .. } => 2,
        }
    }
}

} // verus!
