use odbc_dsn_config::add_dsn_dialog::dialog::{
    can_save, new_dsn_request, on_memory_checkbox_changed, DbPathControls,
};
use odbc_dsn_config::add_dsn_dialog::AddDsnDialogResult;
use odbc_dsn_config::common::exchange::Advance;
use odbc_dsn_config::common::protocol::{Access, KeyRef, RegistryReply, RegistryRequest};
use odbc_dsn_config::common::registry::Root;
use odbc_dsn_config::common::{ConfigError, DsnType, DuckDbSetting, RegistryDsn, RegistrySetting};
use odbc_dsn_config::load_dsns_dialog::result::{clone_dsns, remaining_display_millis};
use odbc_dsn_config::load_dsns_dialog::{LoadDsnsDialogResult, LoadDsnsResult};
use odbc_dsn_config::setting_dialog::dialog::{
    apply_value, bool_value_text, delete_value, find_value, setting_form,
};
use odbc_dsn_config::setting_dialog::SettingDialogResult;

fn stored(name: &str, value: &str) -> RegistrySetting {
    RegistrySetting { name: name.to_string(), value: value.to_string() }
}

fn sample_dsn() -> RegistryDsn {
    RegistryDsn {
        name: "sales".to_string(),
        dsn_type: DsnType::SYSTEM,
        settings: vec![stored("Driver", "d"), stored("database", "C:\\s.db"), stored("threads", "8")],
    }
}

fn catalog_setting(name: &str, input_type: &str) -> DuckDbSetting {
    DuckDbSetting::new(name, "", input_type, "GLOBAL", "")
}

#[test]
fn config_error_carries_its_message() {
    assert_eq!(ConfigError::from_string("broken".to_string()).to_string(), "broken");
    assert_eq!(ConfigError::new("text").to_string(), "text");
    assert_eq!(ConfigError::new(&42).to_string(), "42");
    let io = std::io::Error::new(std::io::ErrorKind::NotFound, "missing");
    assert_eq!(ConfigError::new(&io).to_string(), "missing");
}

#[test]
fn new_dsn_needs_name_database_and_scope() {
    assert!(new_dsn_request("", false, "C:\\a.db", Some("User")).is_none());
    assert!(new_dsn_request("a", false, "", Some("User")).is_none());
    assert!(new_dsn_request("a", false, "C:\\a.db", None).is_none());
    assert!(new_dsn_request("a", false, "C:\\a.db", Some("")).is_none());
    assert!(new_dsn_request("", true, "", Some("System")).is_none());
}

#[test]
fn new_dsn_takes_scope_and_database_from_the_fields() {
    let request = new_dsn_request("test1", false, "C:\\data\\a.db", Some("User")).unwrap();
    assert_eq!(request.dsn_type, DsnType::USER);
    assert_eq!(request.name, "test1");
    assert_eq!(request.database, "C:\\data\\a.db");
    let request = new_dsn_request("test2", false, "C:\\data\\b.db", Some("System")).unwrap();
    assert_eq!(request.dsn_type, DsnType::SYSTEM);
    let request = new_dsn_request("test3", false, "x", Some("system")).unwrap();
    assert_eq!(request.dsn_type, DsnType::USER);
}

#[test]
fn new_dsn_in_memory_has_the_marker_as_database() {
    let request = new_dsn_request("mem", true, "C:\\ignored.db", Some("System")).unwrap();
    assert_eq!(request.database, ":memory:");
    let request = new_dsn_request("mem", true, "", Some("User")).unwrap();
    assert_eq!(request.database, ":memory:");
}

#[test]
fn save_needs_a_name_and_a_database() {
    assert!(can_save("a", "C:\\a.db", false));
    assert!(can_save("a", "", true));
    assert!(can_save("a", "C:\\a.db", true));
    assert!(!can_save("a", "", false));
    assert!(!can_save("", "C:\\a.db", false));
    assert!(!can_save("", "", true));
}

#[test]
fn memory_choice_locks_the_path() {
    assert_eq!(
        on_memory_checkbox_changed(true),
        DbPathControls { clear_path: true, path_readonly: true, chooser_enabled: false }
    );
    assert_eq!(
        on_memory_checkbox_changed(false),
        DbPathControls { clear_path: false, path_readonly: false, chooser_enabled: true }
    );
}

#[test]
fn add_dialog_result_names_the_dsn() {
    assert_eq!(AddDsnDialogResult::success("a").added_dsn, Some("a".to_string()));
    assert_eq!(AddDsnDialogResult::cancelled().added_dsn, None);
    assert_eq!(AddDsnDialogResult::default().added_dsn, None);
    assert_eq!(AddDsnDialogResult::success("a").clone().added_dsn, Some("a".to_string()));
}

#[test]
fn setting_dialog_result_tells_success() {
    assert!(SettingDialogResult::success().success);
    assert!(!SettingDialogResult::failure().success);
    assert!(!SettingDialogResult::default().success);
}

#[test]
fn form_of_a_stored_setting() {
    let form = setting_form(&catalog_setting("threads", "BIGINT"), &sample_dsn());
    assert_eq!(form.dsn_value, Some("8".to_string()));
    assert!(form.delete_enabled);
    assert!(!form.value_readonly);
    assert!(!form.bool_checkbox_enabled);
    assert!(!form.fs_path_button_enabled);
}

#[test]
fn form_of_a_setting_that_is_not_stored() {
    let form = setting_form(&catalog_setting("enable_logging", "BOOLEAN"), &sample_dsn());
    assert_eq!(form.dsn_value, None);
    assert!(!form.delete_enabled);
    assert!(form.value_readonly);
    assert!(form.bool_checkbox_enabled);
    assert!(!form.fs_path_button_enabled);
}

#[test]
fn form_of_a_file_path() {
    let form = setting_form(&catalog_setting("database", ""), &sample_dsn());
    assert_eq!(form.dsn_value, Some("C:\\s.db".to_string()));
    assert!(!form.delete_enabled);
    assert!(form.fs_path_button_enabled);
    let form = setting_form(&catalog_setting("session_init_sql_file", ""), &sample_dsn());
    assert_eq!(form.dsn_value, None);
    assert!(!form.delete_enabled);
    assert!(form.fs_path_button_enabled);
}

#[test]
fn find_value_gives_the_first_of_the_name() {
    let values = vec![stored("a", "1"), stored("b", "2"), stored("a", "3")];
    assert_eq!(find_value(&values, "a"), Some(0));
    assert_eq!(find_value(&values, "b"), Some(1));
    assert_eq!(find_value(&values, "c"), None);
}

#[test]
fn checkbox_stands_for_true_and_false() {
    assert_eq!(bool_value_text(true), "true");
    assert_eq!(bool_value_text(false), "false");
}

#[test]
fn applied_value_is_trimmed() {
    let exchange = apply_value(&sample_dsn(), &catalog_setting("threads", "BIGINT"), "  16 \t\r\n");
    let key = KeyRef::new(Root::HKLM, "SOFTWARE\\ODBC\\ODBC.INI\\sales");
    assert_eq!(exchange.request(), RegistryRequest::OpenKey { key: key.clone(), access: Access::SetValue });
    let exchange = match exchange.advance(RegistryReply::Done) {
        Advance::Continue(next) => next,
        other => panic!("ended early: {:?}", other),
    };
    assert_eq!(
        exchange.request(),
        RegistryRequest::SetValue { key, name: "threads".to_string(), value: "16".to_string() }
    );
}

#[test]
fn deleted_value_is_that_of_the_setting() {
    let exchange = delete_value(&sample_dsn(), &catalog_setting("threads", "BIGINT"));
    let exchange = match exchange.advance(RegistryReply::Done) {
        Advance::Continue(next) => next,
        other => panic!("ended early: {:?}", other),
    };
    assert_eq!(
        exchange.request(),
        RegistryRequest::DeleteValue {
            key: KeyRef::new(Root::HKLM, "SOFTWARE\\ODBC\\ODBC.INI\\sales"),
            name: "threads".to_string()
        }
    );
}

#[test]
fn load_result_of_success_and_failure() {
    let result = LoadDsnsResult::success(vec![sample_dsn()]);
    assert!(result.success);
    assert_eq!(result.message, "");
    assert_eq!(result.dsns, vec![sample_dsn()]);
    let result = LoadDsnsResult::failure("no driver".to_string());
    assert!(!result.success);
    assert_eq!(result.message, "no driver");
    assert!(result.dsns.is_empty());
    let result = LoadDsnsResult::default();
    assert!(!result.success);
    assert_eq!(result.message, "");
    let result = LoadDsnsResult::from_discovery(Ok(vec![sample_dsn()]));
    assert!(result.success);
    assert_eq!(result.dsns.len(), 1);
    let result = LoadDsnsResult::from_discovery(Err(ConfigError::from_string("broken".to_string())));
    assert!(!result.success);
    assert_eq!(result.message, "broken");
}

#[test]
fn load_dialog_result_holds_the_dsns() {
    let result = LoadDsnsDialogResult::new(vec![sample_dsn()]);
    assert_eq!(result.dsns, vec![sample_dsn()]);
    assert_eq!(result.clone().dsns, vec![sample_dsn()]);
    assert!(LoadDsnsDialogResult::default().dsns.is_empty());
    assert_eq!(clone_dsns(&vec![sample_dsn(), RegistryDsn::default()]), vec![sample_dsn(), RegistryDsn::default()]);
    let empty = RegistryDsn::default();
    assert_eq!(empty.name, "");
    assert_eq!(empty.dsn_type, DsnType::USER);
    assert!(empty.settings.is_empty());
}

#[test]
fn progress_is_shown_for_a_second() {
    assert_eq!(remaining_display_millis(0), 1000);
    assert_eq!(remaining_display_millis(1), 999);
    assert_eq!(remaining_display_millis(999), 1);
    assert_eq!(remaining_display_millis(1000), 0);
    assert_eq!(remaining_display_millis(1001), 0);
    assert_eq!(remaining_display_millis(u128::MAX), 0);
}
