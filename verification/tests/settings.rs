use odbc_dsn_config::app_window::settings_view::{
    find_setting, merge_dsn_settings, non_engine_setting_description, setting_in_order,
    setting_matches_filters, shown_rows, sort_settings,
};
use odbc_dsn_config::app_window::window::{
    connection_string, fallback_selection, find_dsn, on_dsn_changed, on_settings_view_sort, SortArrow,
};
use odbc_dsn_config::common::all_settings;
use odbc_dsn_config::common::registry::{
    DATABASE_SETTING_DESCRIPTION, SESSION_INIT_SQL_FILE_SETTING_DESCRIPTION,
};
use odbc_dsn_config::common::text::{in_order, same_text};
use odbc_dsn_config::common::{DsnType, DuckDbSetting, RegistryDsn, RegistrySetting};

fn row(name: &str, dsn_value: &str, default_value: &str) -> DuckDbSetting {
    let mut setting = DuckDbSetting::new(name, default_value, "VARCHAR", "GLOBAL", "");
    setting.dsn_value = dsn_value.to_string();
    setting
}

fn names(settings: &Vec<DuckDbSetting>) -> Vec<&str> {
    settings.iter().map(|s| s.name.as_str()).collect()
}

fn stored(name: &str, value: &str) -> RegistrySetting {
    RegistrySetting { name: name.to_string(), value: value.to_string() }
}

fn dsn(name: &str, dsn_type: DsnType, settings: Vec<RegistrySetting>) -> RegistryDsn {
    RegistryDsn { name: name.to_string(), dsn_type, settings }
}

#[test]
fn catalog_holds_every_setting() {
    let settings = all_settings();
    assert_eq!(settings.len(), 120);
    assert_eq!(settings[0].name, "access_mode");
    assert_eq!(settings[0].default_value, "automatic");
    assert_eq!(settings[0].input_type, "VARCHAR");
    assert_eq!(settings[0].scope, "GLOBAL");
    assert_eq!(settings[0].description, "Access mode of the database (AUTOMATIC, READ_ONLY or READ_WRITE)");
    assert_eq!(settings[19].name, "Calendar");
    assert_eq!(settings[14].name, "asof_loop_join_threshold");
    assert_eq!(settings[14].input_type, "UBIGINT");
    assert_eq!(settings[14].scope, "LOCAL");
    assert_eq!(settings[109].name, "secret_directory");
    assert_eq!(settings[109].default_value, "C:\\Users\\alexk\\.duckdb\\stored_secrets");
    assert_eq!(settings[119].name, "zstd_min_string_length");
    assert_eq!(settings[119].default_value, "4096");
    assert!(settings.iter().all(|s| s.dsn_value.is_empty()));
}

#[test]
fn catalog_names_are_distinct() {
    let settings = all_settings();
    for i in 0..settings.len() {
        for j in 0..i {
            assert_ne!(settings[i].name, settings[j].name);
        }
    }
}

#[test]
fn catalog_entry_keeps_quotes() {
    let settings = all_settings();
    let at = find_setting(&settings, "custom_profiling_settings").unwrap();
    assert!(settings[at].default_value.starts_with("{\"QUERY_NAME\": \"true\", "));
    let at = find_setting(&settings, "catalog_error_max_schemas").unwrap();
    assert!(settings[at].description.contains("\"did you mean...\""));
}

#[test]
fn new_setting_has_no_dsn_value() {
    let setting = DuckDbSetting::new("threads", "4", "BIGINT", "GLOBAL", "The number of threads");
    assert_eq!(setting.name, "threads");
    assert_eq!(setting.dsn_value, "");
    assert_eq!(setting.default_value, "4");
    assert_eq!(setting.description, "The number of threads");
    assert_eq!(setting.input_type, "BIGINT");
    assert_eq!(setting.scope, "GLOBAL");
    let empty = DuckDbSetting::default();
    assert_eq!(empty.name, "");
    assert_eq!(empty.scope, "");
    let copy = setting.clone();
    assert_eq!(copy.name, "threads");
    assert_eq!(copy.default_value, "4");
}

#[test]
fn empty_filter_passes_every_name() {
    assert!(setting_matches_filters("", "threads"));
    assert!(setting_matches_filters("", ""));
}

#[test]
fn filter_passes_names_that_begin_with_it() {
    assert!(setting_matches_filters("enable_", "enable_logging"));
    assert!(setting_matches_filters("*", "*literal"));
    assert!(!setting_matches_filters("logging", "enable_logging"));
    assert!(!setting_matches_filters("Enable", "enable_logging"));
}

#[test]
fn filter_passes_names_that_a_wildcard_covers() {
    assert!(setting_matches_filters("*logging*", "enable_http_logging"));
    assert!(setting_matches_filters("*_mode", "access_mode"));
    assert!(setting_matches_filters("thread?", "threads"));
    assert!(setting_matches_filters("a*b?c", "axxbyc"));
    assert!(!setting_matches_filters("thread?", "thread"));
    assert!(!setting_matches_filters("*_mode", "access_modes"));
    assert!(!setting_matches_filters("?", ""));
    assert!(setting_matches_filters("**", "anything"));
}

#[test]
fn shown_rows_are_the_positions_that_pass() {
    let settings = vec![row("threads", "", "4"), row("max_memory", "", ""), row("worker_threads", "", "4")];
    assert_eq!(shown_rows(&settings, ""), vec![0, 1, 2]);
    assert_eq!(shown_rows(&settings, "*threads"), vec![0, 2]);
    assert_eq!(shown_rows(&settings, "max"), vec![1]);
    assert_eq!(shown_rows(&settings, "none"), Vec::<usize>::new());
    assert_eq!(shown_rows(&Vec::new(), "x"), Vec::<usize>::new());
    assert_eq!(shown_rows(&all_settings(), "allow_*"), vec![4, 5, 6, 7, 8]);
}

#[test]
fn find_setting_gives_the_first_of_the_name() {
    let settings = vec![row("a", "1", ""), row("b", "2", ""), row("a", "3", "")];
    assert_eq!(find_setting(&settings, "a"), Some(0));
    assert_eq!(find_setting(&settings, "b"), Some(1));
    assert_eq!(find_setting(&settings, "A"), None);
    assert_eq!(find_setting(&Vec::new(), "a"), None);
}

#[test]
fn same_text_compares_characters() {
    assert!(same_text("", ""));
    assert!(same_text("Driver", "Driver"));
    assert!(!same_text("Driver", "driver"));
    assert!(!same_text("Driver", "Drive"));
    assert!(same_text("données", "données"));
    assert!(!same_text("données", "donnees"));
}

#[test]
fn texts_are_ordered_by_code_point() {
    assert!(in_order("a", "b", false));
    assert!(!in_order("b", "a", false));
    assert!(in_order("b", "a", true));
    assert!(in_order("a", "a", false));
    assert!(in_order("a", "a", true));
    assert!(in_order("", "a", false));
    assert!(in_order("ab", "abc", false));
    assert!(in_order("Z", "a", false));
    assert!(in_order("z", "é", false));
}

#[test]
fn merge_sets_values_and_adds_unknown_ones() {
    let mut settings = vec![row("threads", "", "4"), row("max_memory", "", "")];
    let stored_values = vec![
        stored("Driver", "C:\\duckdb.dll"),
        stored("database", "C:\\a.db"),
        stored("threads", "8"),
        stored("session_init_sql_file", "C:\\init.sql"),
        stored("custom", "x"),
    ];
    merge_dsn_settings(&mut settings, &stored_values);
    assert_eq!(names(&settings), vec!["threads", "max_memory", "database", "session_init_sql_file", "custom"]);
    assert_eq!(settings[0].dsn_value, "8");
    assert_eq!(settings[0].default_value, "4");
    assert_eq!(settings[1].dsn_value, "");
    assert_eq!(settings[2].dsn_value, "C:\\a.db");
    assert_eq!(settings[2].description, DATABASE_SETTING_DESCRIPTION);
    assert_eq!(settings[2].default_value, "");
    assert_eq!(settings[2].input_type, "");
    assert_eq!(settings[3].description, SESSION_INIT_SQL_FILE_SETTING_DESCRIPTION);
    assert_eq!(settings[4].dsn_value, "x");
    assert_eq!(settings[4].description, "");
}

#[test]
fn merge_puts_a_repeated_name_in_one_row() {
    let mut settings = Vec::new();
    merge_dsn_settings(&mut settings, &vec![stored("x", "1"), stored("x", "2")]);
    assert_eq!(names(&settings), vec!["x"]);
    assert_eq!(settings[0].dsn_value, "2");
}

#[test]
fn descriptions_of_stored_values() {
    assert_eq!(non_engine_setting_description("database"), DATABASE_SETTING_DESCRIPTION);
    assert_eq!(
        non_engine_setting_description("session_init_sql_file"),
        SESSION_INIT_SQL_FILE_SETTING_DESCRIPTION
    );
    assert_eq!(non_engine_setting_description("Database"), "");
    assert_eq!(non_engine_setting_description("threads"), "");
}

#[test]
fn sort_by_name_ignores_case() {
    let mut settings = vec![row("catalog", "", ""), row("binary", "", ""), row("Calendar", "", ""), row("access", "", "")];
    sort_settings(&mut settings, 0, false);
    assert_eq!(names(&settings), vec!["access", "binary", "Calendar", "catalog"]);
    sort_settings(&mut settings, 0, true);
    assert_eq!(names(&settings), vec!["catalog", "Calendar", "binary", "access"]);
}

#[test]
fn sort_keeps_the_order_of_equal_keys() {
    let mut settings = vec![
        row("d", "x", "2"),
        row("a", "", "1"),
        row("c", "X", "1"),
        row("b", "", "2"),
        row("e", "y", "1"),
    ];
    sort_settings(&mut settings, 1, false);
    assert_eq!(names(&settings), vec!["a", "b", "d", "c", "e"]);
    sort_settings(&mut settings, 1, true);
    assert_eq!(names(&settings), vec!["e", "d", "c", "a", "b"]);
    sort_settings(&mut settings, 2, false);
    assert_eq!(names(&settings), vec!["e", "c", "a", "d", "b"]);
    sort_settings(&mut settings, 2, true);
    assert_eq!(names(&settings), vec!["d", "b", "e", "c", "a"]);
}

#[test]
fn sort_by_another_column_changes_nothing() {
    let mut settings = vec![row("b", "", ""), row("a", "", "")];
    sort_settings(&mut settings, 3, false);
    assert_eq!(names(&settings), vec!["b", "a"]);
    sort_settings(&mut settings, usize::MAX, true);
    assert_eq!(names(&settings), vec!["b", "a"]);
    let mut none: Vec<DuckDbSetting> = Vec::new();
    sort_settings(&mut none, 0, false);
    assert!(none.is_empty());
}

#[test]
fn catalog_is_in_the_order_of_its_names() {
    let mut settings = all_settings();
    let before: Vec<String> = settings.iter().map(|s| s.name.clone()).collect();
    sort_settings(&mut settings, 0, false);
    let after: Vec<String> = settings.iter().map(|s| s.name.clone()).collect();
    assert_eq!(before, after);
}

#[test]
fn rows_are_compared_in_lowercase() {
    let a = row("ABC", "b", "C");
    let b = row("abd", "A", "c");
    assert!(setting_in_order(&a, &b, 0, false));
    assert!(!setting_in_order(&a, &b, 0, true));
    assert!(!setting_in_order(&a, &b, 1, false));
    assert!(setting_in_order(&a, &b, 1, true));
    assert!(setting_in_order(&a, &b, 2, false));
    assert!(setting_in_order(&a, &b, 2, true));
}

#[test]
fn click_on_a_column_toggles_the_arrow_and_sorts() {
    let mut settings = vec![row("b", "", ""), row("c", "", ""), row("a", "", "")];
    assert_eq!(on_settings_view_sort(&mut settings, 0, SortArrow::Up), Some(SortArrow::Down));
    assert_eq!(names(&settings), vec!["a", "b", "c"]);
    assert_eq!(on_settings_view_sort(&mut settings, 0, SortArrow::Down), Some(SortArrow::Up));
    assert_eq!(names(&settings), vec!["c", "b", "a"]);
    assert_eq!(on_settings_view_sort(&mut settings, 3, SortArrow::Down), None);
    assert_eq!(names(&settings), vec!["c", "b", "a"]);
}

#[test]
fn selected_dsn_shows_its_values_first() {
    let dsns = vec![
        dsn("first", DsnType::SYSTEM, vec![stored("Driver", "d"), stored("database", "C:\\1.db")]),
        dsn(
            "second",
            DsnType::USER,
            vec![stored("Driver", "d"), stored("database", ":memory:"), stored("threads", "8")],
        ),
    ];
    let display = on_dsn_changed(&dsns, Some("second"));
    assert_eq!(display.conn_str, "DSN={second};");
    assert_eq!(display.settings.len(), 121);
    assert_eq!(display.settings[0].name, "database");
    assert_eq!(display.settings[0].dsn_value, ":memory:");
    assert_eq!(display.settings[1].name, "threads");
    assert_eq!(display.settings[1].dsn_value, "8");
    assert_eq!(display.settings[2].name, "access_mode");
    assert_eq!(display.settings[2].dsn_value, "");
    assert_eq!(display.settings[120].name, "zstd_min_string_length");
}

#[test]
fn no_selection_shows_the_catalog() {
    let dsns = vec![dsn("first", DsnType::SYSTEM, vec![stored("threads", "8")])];
    let display = on_dsn_changed(&dsns, None);
    assert_eq!(display.conn_str, "");
    assert_eq!(display.settings.len(), 120);
    assert_eq!(display.settings[0].name, "access_mode");
    let display = on_dsn_changed(&dsns, Some("unknown"));
    assert_eq!(display.conn_str, "");
    assert_eq!(display.settings.len(), 120);
    assert!(display.settings.iter().all(|s| s.dsn_value.is_empty()));
}

#[test]
fn connection_string_names_the_dsn() {
    assert_eq!(connection_string("my dsn"), "DSN={my dsn};");
    assert_eq!(connection_string(""), "DSN={};");
}

#[test]
fn find_dsn_gives_the_first_of_the_name() {
    let dsns = vec![
        dsn("a", DsnType::SYSTEM, vec![]),
        dsn("b", DsnType::USER, vec![]),
        dsn("a", DsnType::USER, vec![]),
    ];
    assert_eq!(find_dsn(&dsns, "a"), Some(0));
    assert_eq!(find_dsn(&dsns, "b"), Some(1));
    assert_eq!(find_dsn(&dsns, "c"), None);
}

#[test]
fn first_dsn_is_selected_where_none_was_restored() {
    assert_eq!(fallback_selection(3, false), Some(0));
    assert_eq!(fallback_selection(3, true), None);
    assert_eq!(fallback_selection(0, false), None);
    assert_eq!(fallback_selection(0, true), None);
}
