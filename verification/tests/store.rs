use std::collections::HashMap;
use std::collections::HashSet;

use odbc_dsn_config::common::config_error::ConfigError;
use odbc_dsn_config::common::exchange::{Advance, Exchange, Outcome};
use odbc_dsn_config::add_dsn_dialog::dialog::{create_new_dsn, new_dsn_request};
use odbc_dsn_config::common::protocol::{Access, KeyRef, RegistryReply, RegistryRequest};
use odbc_dsn_config::common::registry::{
    create_dsn, delete_dsn, delete_dsn_value, dsn_subpath, duckdb_driver_path, list_subkeys,
    list_values, set_dsn_value, DsnType, RegistryDsn, RegistrySetting, Root, DRIVER_KEY_PATH,
    ODBC_INI_SUBPATH,
};
use odbc_dsn_config::load_dsns_dialog::dialog::{load_dsns_from_registry, DiscoveryAdvance};

const DRIVER_FILE: &str = "C:\\Program Files\\DuckDB\\duckdb_odbc.dll";
const FAULT: &str = "The system cannot find the file specified. (os error 2)";

#[derive(Clone, Debug, PartialEq, Default)]
struct FakeKey {
    subkeys: Vec<String>,
    values: Vec<(String, String)>,
}

#[derive(Clone, Debug, PartialEq, Default)]
struct FakeRegistry {
    keys: HashMap<(Root, String), FakeKey>,
    opened: HashSet<(Root, String)>,
    writes: usize,
}

fn id(key: &KeyRef) -> (Root, String) {
    (key.root, key.path.clone())
}

impl FakeRegistry {
    fn with_driver() -> FakeRegistry {
        let mut registry = FakeRegistry::default();
        registry.add_key(Root::HKLM, DRIVER_KEY_PATH);
        registry.set(Root::HKLM, DRIVER_KEY_PATH, "Driver", DRIVER_FILE);
        for root in [Root::HKLM, Root::HKCU] {
            registry.add_key(root, ODBC_INI_SUBPATH);
            registry.add_subkey(root, ODBC_INI_SUBPATH, "ODBC Data Sources");
        }
        registry
    }

    fn add_key(&mut self, root: Root, path: &str) {
        self.keys.insert((root, path.to_string()), FakeKey::default());
    }

    fn add_subkey(&mut self, root: Root, path: &str, name: &str) {
        self.keys.get_mut(&(root, path.to_string())).unwrap().subkeys.push(name.to_string());
        self.add_key(root, &format!("{}\\{}", path, name));
    }

    fn set(&mut self, root: Root, path: &str, name: &str, value: &str) {
        let key = self.keys.get_mut(&(root, path.to_string())).unwrap();
        match key.values.iter_mut().find(|(n, _)| n == name) {
            Some(entry) => entry.1 = value.to_string(),
            None => key.values.push((name.to_string(), value.to_string())),
        }
    }

    fn values(&self, root: Root, path: &str) -> Vec<(String, String)> {
        self.keys[&(root, path.to_string())].values.clone()
    }

    fn failed() -> RegistryReply {
        RegistryReply::Failed(FAULT.to_string())
    }

    fn open_key_of(&self, key: &KeyRef) -> Option<(Root, String)> {
        assert!(self.opened.contains(&id(key)), "request on a key that was not opened: {:?}", key);
        if self.keys.contains_key(&id(key)) {
            Some(id(key))
        } else {
            None
        }
    }

    fn answer(&mut self, request: &RegistryRequest) -> RegistryReply {
        match request {
            RegistryRequest::OpenKey { key, .. } => {
                if self.keys.contains_key(&id(key)) {
                    self.opened.insert(id(key));
                    RegistryReply::Done
                } else {
                    FakeRegistry::failed()
                }
            }
            RegistryRequest::OpenSubkey { parent, name, .. } => {
                let child = parent.child(name);
                if self.open_key_of(parent).is_some() && self.keys.contains_key(&id(&child)) {
                    self.opened.insert(id(&child));
                    RegistryReply::Done
                } else {
                    FakeRegistry::failed()
                }
            }
            RegistryRequest::CreateSubkey { parent, name } => match self.open_key_of(parent) {
                Some(at) => {
                    let child = id(&parent.child(name));
                    if !self.keys.contains_key(&child) {
                        self.writes += 1;
                        self.keys.get_mut(&at).unwrap().subkeys.push(name.clone());
                        self.keys.insert(child, FakeKey::default());
                    }
                    RegistryReply::Done
                }
                None => FakeRegistry::failed(),
            },
            RegistryRequest::DeleteSubkey { parent, name } => match self.open_key_of(parent) {
                Some(at) => {
                    let child = id(&parent.child(name));
                    let empty = self.keys.get(&child).map(|k| k.subkeys.is_empty());
                    if empty == Some(true) {
                        self.writes += 1;
                        self.keys.remove(&child);
                        self.keys.get_mut(&at).unwrap().subkeys.retain(|n| n != name);
                        RegistryReply::Done
                    } else {
                        FakeRegistry::failed()
                    }
                }
                None => FakeRegistry::failed(),
            },
            RegistryRequest::GetValue { key, name } => match self.open_key_of(key) {
                Some(at) => match self.keys[&at].values.iter().find(|(n, _)| n == name) {
                    Some((_, value)) => RegistryReply::Text(value.clone()),
                    None => FakeRegistry::failed(),
                },
                None => FakeRegistry::failed(),
            },
            RegistryRequest::SetValue { key, name, value } => match self.open_key_of(key) {
                Some(at) => {
                    self.writes += 1;
                    self.set(at.0, &at.1, name, value);
                    RegistryReply::Done
                }
                None => FakeRegistry::failed(),
            },
            RegistryRequest::DeleteValue { key, name } => match self.open_key_of(key) {
                Some(at) => {
                    let values = &mut self.keys.get_mut(&at).unwrap().values;
                    match values.iter().position(|(n, _)| n == name) {
                        Some(i) => {
                            values.remove(i);
                            self.writes += 1;
                            RegistryReply::Done
                        }
                        None => FakeRegistry::failed(),
                    }
                }
                None => FakeRegistry::failed(),
            },
            RegistryRequest::EnumKeys { key } => match self.open_key_of(key) {
                Some(at) => RegistryReply::Names(
                    self.keys[&at].subkeys.iter().map(|n| Some(n.clone())).collect(),
                ),
                None => FakeRegistry::failed(),
            },
            RegistryRequest::EnumValues { key } => match self.open_key_of(key) {
                Some(at) => RegistryReply::Values(
                    self.keys[&at]
                        .values
                        .iter()
                        .map(|(n, v)| Some(RegistrySetting { name: n.clone(), value: v.clone() }))
                        .collect(),
                ),
                None => FakeRegistry::failed(),
            },
        }
    }
}

fn run(start: Exchange, registry: &mut FakeRegistry) -> Result<Outcome, ConfigError> {
    registry.opened.clear();
    let mut exchange = start;
    loop {
        let reply = registry.answer(&exchange.request());
        match exchange.advance(reply) {
            Advance::Continue(next) => exchange = next,
            Advance::Finished(result) => return result,
        }
    }
}

fn discover(registry: &mut FakeRegistry) -> Result<Vec<RegistryDsn>, ConfigError> {
    let mut discovery = load_dsns_from_registry();
    loop {
        let result = run(Exchange::new(discovery.operation()), registry);
        match discovery.advance(result) {
            DiscoveryAdvance::Continue(next) => discovery = next,
            DiscoveryAdvance::Finished(found) => return found,
        }
    }
}

fn setting(name: &str, value: &str) -> RegistrySetting {
    RegistrySetting { name: name.to_string(), value: value.to_string() }
}

fn message(result: Result<Outcome, ConfigError>) -> String {
    result.unwrap_err().to_string()
}

fn listed(registry: &mut FakeRegistry, dsn_type: DsnType, name: &str) -> Vec<RegistrySetting> {
    match run(list_values(dsn_type.root(), &dsn_subpath(name)), registry) {
        Ok(Outcome::Settings(settings)) => settings,
        other => panic!("no values: {:?}", other),
    }
}

#[test]
fn driver_path_is_read_from_the_registration() {
    let mut registry = FakeRegistry::with_driver();
    assert_eq!(run(duckdb_driver_path(), &mut registry), Ok(Outcome::Text(DRIVER_FILE.to_string())));
}

#[test]
fn driver_path_fails_without_registration() {
    let mut registry = FakeRegistry::default();
    assert_eq!(
        message(run(duckdb_driver_path(), &mut registry)),
        format!(
            "DuckDB Driver not found in registry, path: 'HKLM\\SOFTWARE\\ODBC\\ODBCINST.INI\\DuckDB Driver', message: {}",
            FAULT
        )
    );
}

#[test]
fn driver_path_fails_without_value() {
    let mut registry = FakeRegistry::default();
    registry.add_key(Root::HKLM, DRIVER_KEY_PATH);
    assert_eq!(
        message(run(duckdb_driver_path(), &mut registry)),
        format!(
            "Error reading the 'Driver' value from registry key: 'HKLM\\SOFTWARE\\ODBC\\ODBCINST.INI\\DuckDB Driver', message: {}",
            FAULT
        )
    );
}

#[test]
fn list_subkeys_gives_names_in_order() {
    let mut registry = FakeRegistry::with_driver();
    registry.add_subkey(Root::HKCU, ODBC_INI_SUBPATH, "b");
    registry.add_subkey(Root::HKCU, ODBC_INI_SUBPATH, "a");
    assert_eq!(
        run(list_subkeys(Root::HKCU, ODBC_INI_SUBPATH), &mut registry),
        Ok(Outcome::Names(vec!["ODBC Data Sources".to_string(), "b".to_string(), "a".to_string()]))
    );
}

#[test]
fn list_subkeys_fails_on_missing_key() {
    let mut registry = FakeRegistry::default();
    assert_eq!(
        message(run(list_subkeys(Root::HKCU, "SOFTWARE\\Nothing"), &mut registry)),
        format!("Cannot open registry key, path: 'HKCU\\SOFTWARE\\Nothing', message: {}", FAULT)
    );
    assert_eq!(
        message(run(list_values(Root::HKLM, "SOFTWARE\\Nothing"), &mut registry)),
        format!("Cannot open registry key, path: 'HKLM\\SOFTWARE\\Nothing', message: {}", FAULT)
    );
}

#[test]
fn listing_skips_items_that_cannot_be_read() {
    let exchange = list_subkeys(Root::HKLM, ODBC_INI_SUBPATH);
    let exchange = match exchange.advance(RegistryReply::Done) {
        Advance::Continue(next) => next,
        other => panic!("ended early: {:?}", other),
    };
    let reply = RegistryReply::Names(vec![Some("a".to_string()), None, Some("b".to_string()), None]);
    match exchange.advance(reply) {
        Advance::Finished(result) => {
            assert_eq!(result, Ok(Outcome::Names(vec!["a".to_string(), "b".to_string()])))
        }
        other => panic!("not ended: {:?}", other),
    }
    let exchange = list_values(Root::HKLM, ODBC_INI_SUBPATH);
    let exchange = match exchange.advance(RegistryReply::Done) {
        Advance::Continue(next) => next,
        other => panic!("ended early: {:?}", other),
    };
    let reply = RegistryReply::Values(vec![None, Some(setting("x", "1")), None]);
    match exchange.advance(reply) {
        Advance::Finished(result) => assert_eq!(result, Ok(Outcome::Settings(vec![setting("x", "1")]))),
        other => panic!("not ended: {:?}", other),
    }
}

#[test]
fn create_user_dsn_then_discover() {
    let mut registry = FakeRegistry::with_driver();
    assert_eq!(run(create_dsn(DsnType::USER, "test1", "C:\\data\\a.db"), &mut registry), Ok(Outcome::Done));
    let found = discover(&mut registry).unwrap();
    assert_eq!(
        found,
        vec![RegistryDsn {
            name: "test1".to_string(),
            dsn_type: DsnType::USER,
            settings: vec![setting("Driver", DRIVER_FILE), setting("database", "C:\\data\\a.db")],
        }]
    );
    assert_eq!(
        registry.values(Root::HKCU, "SOFTWARE\\ODBC\\ODBC.INI\\ODBC Data Sources"),
        vec![("test1".to_string(), "DuckDB Driver".to_string())]
    );
}

#[test]
fn create_in_memory_dsn_stores_the_marker() {
    let mut registry = FakeRegistry::with_driver();
    let request = new_dsn_request("mem", true, "", Some("User")).unwrap();
    assert_eq!(run(create_new_dsn(&request), &mut registry), Ok(Outcome::Done));
    assert_eq!(
        listed(&mut registry, DsnType::USER, "mem"),
        vec![setting("Driver", DRIVER_FILE), setting("database", ":memory:")]
    );
}

#[test]
fn create_existing_name_is_refused() {
    let mut registry = FakeRegistry::with_driver();
    run(create_dsn(DsnType::SYSTEM, "sales", "C:\\sales.db"), &mut registry).unwrap();
    let before = registry.clone();
    let again = run(create_dsn(DsnType::SYSTEM, "sales", "C:\\other.db"), &mut registry);
    assert_eq!(message(again), "Data source already exist, name: sales");
    assert_eq!(registry.keys, before.keys);
    assert_eq!(registry.writes, before.writes);
    assert_eq!(
        listed(&mut registry, DsnType::SYSTEM, "sales"),
        vec![setting("Driver", DRIVER_FILE), setting("database", "C:\\sales.db")]
    );
}

#[test]
fn create_refuses_a_name_taken_by_another_driver() {
    let mut registry = FakeRegistry::with_driver();
    registry.add_subkey(Root::HKCU, ODBC_INI_SUBPATH, "pg");
    registry.set(Root::HKCU, "SOFTWARE\\ODBC\\ODBC.INI\\pg", "Driver", "C:\\psqlodbc.dll");
    let result = run(create_dsn(DsnType::USER, "pg", "C:\\a.db"), &mut registry);
    assert_eq!(message(result), "Data source already exist, name: pg");
}

#[test]
fn create_fails_where_the_scope_cannot_be_opened() {
    let mut registry = FakeRegistry::default();
    let result = run(create_dsn(DsnType::SYSTEM, "a", "b"), &mut registry);
    assert_eq!(
        message(result),
        format!("Cannot open registry key, path: 'HKLM\\SOFTWARE\\ODBC\\ODBC.INI', message: {}", FAULT)
    );
}

#[test]
fn create_without_driver_leaves_the_key() {
    let mut registry = FakeRegistry::default();
    registry.add_key(Root::HKCU, ODBC_INI_SUBPATH);
    let result = run(create_dsn(DsnType::USER, "half", "C:\\a.db"), &mut registry);
    assert_eq!(
        message(result),
        format!(
            "DuckDB Driver not found in registry, path: 'HKLM\\SOFTWARE\\ODBC\\ODBCINST.INI\\DuckDB Driver', message: {}",
            FAULT
        )
    );
    assert!(registry.keys.contains_key(&(Root::HKCU, "SOFTWARE\\ODBC\\ODBC.INI\\half".to_string())));
}

#[test]
fn create_without_listing_fails_after_the_values() {
    let mut registry = FakeRegistry::default();
    registry.add_key(Root::HKLM, DRIVER_KEY_PATH);
    registry.set(Root::HKLM, DRIVER_KEY_PATH, "Driver", DRIVER_FILE);
    registry.add_key(Root::HKCU, ODBC_INI_SUBPATH);
    let result = run(create_dsn(DsnType::USER, "half", "C:\\a.db"), &mut registry);
    assert_eq!(message(result), FAULT);
    assert_eq!(
        registry.values(Root::HKCU, "SOFTWARE\\ODBC\\ODBC.INI\\half"),
        vec![
            ("Driver".to_string(), DRIVER_FILE.to_string()),
            ("database".to_string(), "C:\\a.db".to_string())
        ]
    );
}

#[test]
fn same_name_in_both_scopes_gives_two_records() {
    let mut registry = FakeRegistry::with_driver();
    run(create_dsn(DsnType::USER, "both", "C:\\u.db"), &mut registry).unwrap();
    run(create_dsn(DsnType::SYSTEM, "both", "C:\\s.db"), &mut registry).unwrap();
    let found = discover(&mut registry).unwrap();
    assert_eq!(found.len(), 2);
    assert_eq!(found[0].name, "both");
    assert_eq!(found[0].dsn_type, DsnType::SYSTEM);
    assert_eq!(found[0].settings[1], setting("database", "C:\\s.db"));
    assert_eq!(found[1].name, "both");
    assert_eq!(found[1].dsn_type, DsnType::USER);
    assert_eq!(found[1].settings[1], setting("database", "C:\\u.db"));
}

#[test]
fn discovery_keeps_only_the_data_sources_of_the_driver() {
    let mut registry = FakeRegistry::with_driver();
    run(create_dsn(DsnType::USER, "u1", "C:\\1.db"), &mut registry).unwrap();
    registry.add_subkey(Root::HKCU, ODBC_INI_SUBPATH, "pg");
    registry.set(Root::HKCU, "SOFTWARE\\ODBC\\ODBC.INI\\pg", "Driver", "C:\\psqlodbc.dll");
    registry.add_subkey(Root::HKLM, ODBC_INI_SUBPATH, "nodriver");
    registry.set(Root::HKLM, "SOFTWARE\\ODBC\\ODBC.INI\\nodriver", "database", DRIVER_FILE);
    run(create_dsn(DsnType::SYSTEM, "s1", "C:\\2.db"), &mut registry).unwrap();
    run(create_dsn(DsnType::USER, "u2", ":memory:"), &mut registry).unwrap();
    let found = discover(&mut registry).unwrap();
    let names: Vec<(&str, DsnType)> = found.iter().map(|d| (d.name.as_str(), d.dsn_type)).collect();
    assert_eq!(names, vec![("s1", DsnType::SYSTEM), ("u1", DsnType::USER), ("u2", DsnType::USER)]);
    for dsn in &found {
        assert!(dsn.settings.iter().any(|s| s.name == "Driver" && s.value == DRIVER_FILE));
    }
}

#[test]
fn discovery_of_an_empty_registry_finds_nothing() {
    let mut registry = FakeRegistry::default();
    registry.add_key(Root::HKLM, DRIVER_KEY_PATH);
    registry.set(Root::HKLM, DRIVER_KEY_PATH, "Driver", DRIVER_FILE);
    registry.add_key(Root::HKLM, ODBC_INI_SUBPATH);
    registry.add_key(Root::HKCU, ODBC_INI_SUBPATH);
    assert_eq!(discover(&mut registry), Ok(vec![]));
}

#[test]
fn discovery_fails_without_driver() {
    let mut registry = FakeRegistry::default();
    registry.add_key(Root::HKLM, ODBC_INI_SUBPATH);
    registry.add_key(Root::HKCU, ODBC_INI_SUBPATH);
    let error = discover(&mut registry).unwrap_err();
    assert!(error.to_string().starts_with("DuckDB Driver not found in registry, path: 'HKLM\\"));
}

#[test]
fn discovery_fails_where_a_scope_cannot_be_listed() {
    let mut registry = FakeRegistry::default();
    registry.add_key(Root::HKLM, DRIVER_KEY_PATH);
    registry.set(Root::HKLM, DRIVER_KEY_PATH, "Driver", DRIVER_FILE);
    registry.add_key(Root::HKLM, ODBC_INI_SUBPATH);
    let error = discover(&mut registry).unwrap_err();
    assert_eq!(
        error.to_string(),
        format!("Cannot open registry key, path: 'HKCU\\SOFTWARE\\ODBC\\ODBC.INI', message: {}", FAULT)
    );
}

#[test]
fn discovery_fails_where_the_values_of_a_key_cannot_be_listed() {
    let mut registry = FakeRegistry::with_driver();
    registry
        .keys
        .get_mut(&(Root::HKLM, ODBC_INI_SUBPATH.to_string()))
        .unwrap()
        .subkeys
        .push("ghost".to_string());
    let error = discover(&mut registry).unwrap_err();
    assert_eq!(
        error.to_string(),
        format!("Cannot open registry key, path: 'HKLM\\SOFTWARE\\ODBC\\ODBC.INI\\ghost', message: {}", FAULT)
    );
}

#[test]
fn delete_dsn_then_discover() {
    let mut registry = FakeRegistry::with_driver();
    run(create_dsn(DsnType::USER, "keep", "C:\\k.db"), &mut registry).unwrap();
    run(create_dsn(DsnType::USER, "gone", "C:\\g.db"), &mut registry).unwrap();
    assert_eq!(run(delete_dsn(DsnType::USER, "gone"), &mut registry), Ok(Outcome::Done));
    let found = discover(&mut registry).unwrap();
    assert_eq!(found.len(), 1);
    assert_eq!(found[0].name, "keep");
    assert_eq!(
        registry.values(Root::HKCU, "SOFTWARE\\ODBC\\ODBC.INI\\ODBC Data Sources"),
        vec![("keep".to_string(), "DuckDB Driver".to_string())]
    );
    assert!(!registry.keys.contains_key(&(Root::HKCU, "SOFTWARE\\ODBC\\ODBC.INI\\gone".to_string())));
}

#[test]
fn delete_missing_dsn_fails() {
    let mut registry = FakeRegistry::with_driver();
    let before = registry.keys.clone();
    assert_eq!(message(run(delete_dsn(DsnType::SYSTEM, "nothing"), &mut registry)), FAULT);
    assert_eq!(registry.keys, before);
    let mut empty = FakeRegistry::default();
    assert_eq!(
        message(run(delete_dsn(DsnType::SYSTEM, "nothing"), &mut empty)),
        format!("Cannot open registry key, path: 'HKLM\\SOFTWARE\\ODBC\\ODBC.INI', message: {}", FAULT)
    );
}

#[test]
fn set_value_then_list() {
    let mut registry = FakeRegistry::with_driver();
    run(create_dsn(DsnType::USER, "d", "C:\\d.db"), &mut registry).unwrap();
    assert_eq!(run(set_dsn_value(DsnType::USER, "d", "threads", "8"), &mut registry), Ok(Outcome::Done));
    assert_eq!(
        listed(&mut registry, DsnType::USER, "d"),
        vec![setting("Driver", DRIVER_FILE), setting("database", "C:\\d.db"), setting("threads", "8")]
    );
    assert_eq!(run(set_dsn_value(DsnType::USER, "d", "threads", "2"), &mut registry), Ok(Outcome::Done));
    assert_eq!(
        listed(&mut registry, DsnType::USER, "d"),
        vec![setting("Driver", DRIVER_FILE), setting("database", "C:\\d.db"), setting("threads", "2")]
    );
    run(set_dsn_value(DsnType::USER, "d", "database", ":memory:"), &mut registry).unwrap();
    assert_eq!(
        listed(&mut registry, DsnType::USER, "d"),
        vec![setting("Driver", DRIVER_FILE), setting("database", ":memory:"), setting("threads", "2")]
    );
}

#[test]
fn set_value_of_missing_dsn_fails() {
    let mut registry = FakeRegistry::with_driver();
    assert_eq!(
        message(run(set_dsn_value(DsnType::SYSTEM, "none", "threads", "8"), &mut registry)),
        format!("Cannot open registry key, path: 'HKLM\\SOFTWARE\\ODBC\\ODBC.INI\\none', message: {}", FAULT)
    );
}

#[test]
fn delete_value_then_list() {
    let mut registry = FakeRegistry::with_driver();
    run(create_dsn(DsnType::SYSTEM, "d", "C:\\d.db"), &mut registry).unwrap();
    run(set_dsn_value(DsnType::SYSTEM, "d", "threads", "8"), &mut registry).unwrap();
    assert_eq!(message(run(delete_dsn_value(DsnType::SYSTEM, "d", "memory_limit"), &mut registry)), FAULT);
    assert_eq!(listed(&mut registry, DsnType::SYSTEM, "d").len(), 3);
    assert_eq!(run(delete_dsn_value(DsnType::SYSTEM, "d", "threads"), &mut registry), Ok(Outcome::Done));
    assert_eq!(
        listed(&mut registry, DsnType::SYSTEM, "d"),
        vec![setting("Driver", DRIVER_FILE), setting("database", "C:\\d.db")]
    );
    assert_eq!(
        message(run(delete_dsn_value(DsnType::SYSTEM, "none", "threads"), &mut registry)),
        format!("Cannot open registry key, path: 'HKLM\\SOFTWARE\\ODBC\\ODBC.INI\\none', message: {}", FAULT)
    );
}

#[test]
fn create_asks_in_the_order_of_its_stages() {
    let mut exchange = create_dsn(DsnType::USER, "n", "db");
    let ini = KeyRef::new(Root::HKCU, ODBC_INI_SUBPATH);
    let dsn = ini.child("n");
    let driver = KeyRef::new(Root::HKLM, DRIVER_KEY_PATH);
    let expected = vec![
        (RegistryRequest::OpenKey { key: ini.clone(), access: Access::Read }, RegistryReply::Done),
        (
            RegistryRequest::OpenSubkey { parent: ini.clone(), name: "n".to_string(), access: Access::Read },
            RegistryReply::Failed("missing".to_string()),
        ),
        (RegistryRequest::CreateSubkey { parent: ini.clone(), name: "n".to_string() }, RegistryReply::Done),
        (
            RegistryRequest::OpenSubkey { parent: ini.clone(), name: "n".to_string(), access: Access::SetValue },
            RegistryReply::Done,
        ),
        (RegistryRequest::OpenKey { key: driver.clone(), access: Access::Read }, RegistryReply::Done),
        (
            RegistryRequest::GetValue { key: driver.clone(), name: "Driver".to_string() },
            RegistryReply::Text("X:\\driver.dll".to_string()),
        ),
        (
            RegistryRequest::SetValue {
                key: dsn.clone(),
                name: "Driver".to_string(),
                value: "X:\\driver.dll".to_string(),
            },
            RegistryReply::Done,
        ),
        (
            RegistryRequest::SetValue { key: dsn.clone(), name: "database".to_string(), value: "db".to_string() },
            RegistryReply::Done,
        ),
        (
            RegistryRequest::OpenSubkey {
                parent: ini.clone(),
                name: "ODBC Data Sources".to_string(),
                access: Access::SetValue,
            },
            RegistryReply::Done,
        ),
    ];
    for (request, reply) in expected {
        assert_eq!(exchange.request(), request);
        exchange = match exchange.advance(reply) {
            Advance::Continue(next) => next,
            other => panic!("ended early: {:?}", other),
        };
    }
    assert_eq!(
        exchange.request(),
        RegistryRequest::SetValue {
            key: ini.child("ODBC Data Sources"),
            name: "n".to_string(),
            value: "DuckDB Driver".to_string(),
        }
    );
    match exchange.advance(RegistryReply::Done) {
        Advance::Finished(result) => assert_eq!(result, Ok(Outcome::Done)),
        other => panic!("not ended: {:?}", other),
    }
}

#[test]
fn delete_asks_in_the_order_of_its_stages() {
    let mut exchange = delete_dsn(DsnType::SYSTEM, "n");
    let ini = KeyRef::new(Root::HKLM, ODBC_INI_SUBPATH);
    let expected = vec![
        RegistryRequest::OpenKey { key: ini.clone(), access: Access::Write },
        RegistryRequest::DeleteSubkey { parent: ini.clone(), name: "n".to_string() },
        RegistryRequest::OpenSubkey {
            parent: ini.clone(),
            name: "ODBC Data Sources".to_string(),
            access: Access::SetValue,
        },
    ];
    for request in expected {
        assert_eq!(exchange.request(), request);
        exchange = match exchange.advance(RegistryReply::Done) {
            Advance::Continue(next) => next,
            other => panic!("ended early: {:?}", other),
        };
    }
    assert_eq!(
        exchange.request(),
        RegistryRequest::DeleteValue { key: ini.child("ODBC Data Sources"), name: "n".to_string() }
    );
}

#[test]
fn a_reply_of_the_wrong_kind_ends_the_exchange() {
    let exchange = duckdb_driver_path();
    match exchange.advance(RegistryReply::Text("x".to_string())) {
        Advance::Finished(result) => assert_eq!(message(result), "Unexpected reply from registry"),
        other => panic!("not ended: {:?}", other),
    }
    let exchange = match duckdb_driver_path().advance(RegistryReply::Done) {
        Advance::Continue(next) => next,
        other => panic!("ended early: {:?}", other),
    };
    match exchange.advance(RegistryReply::Done) {
        Advance::Finished(result) => assert_eq!(message(result), "Unexpected reply from registry"),
        other => panic!("not ended: {:?}", other),
    }
}

#[test]
fn key_paths_are_joined_by_a_backslash() {
    let key = KeyRef::new(Root::HKCU, "SOFTWARE\\ODBC\\ODBC.INI").child("my dsn");
    assert_eq!(key.root, Root::HKCU);
    assert_eq!(key.path, "SOFTWARE\\ODBC\\ODBC.INI\\my dsn");
    assert_eq!(dsn_subpath("x"), "SOFTWARE\\ODBC\\ODBC.INI\\x");
    assert_eq!(Root::HKLM.label(), "HKLM");
    assert_eq!(Root::HKCU.label(), "HKCU");
    assert_eq!(DsnType::USER.root(), Root::HKCU);
    assert_eq!(DsnType::SYSTEM.root(), Root::HKLM);
}
