//! How the dialog for one setting stands when it opens, and what it asks
//! of the registry when the value is applied or deleted.

use vstd::prelude::*;
use vstd::string::*;

use crate::common::duckdb_setting::{DuckDbSetting, SettingRow};
use crate::common::exchange::{begin, Exchange, OperationView};
use crate::common::registry::{
    delete_dsn_value, entry_names, set_dsn_value, DsnRecord, RegistryDsn, RegistrySetting,
    DATABASE_SETTING_NAME, SESSION_INIT_SQL_FILE_SETTING_NAME,
};
use crate::common::text::{first_position, lemma_first_position_is, same_text, trim, trimmed_form};

verus! {

/// What the dialog ends with: whether the registry was changed.
#[derive(Debug, Clone, Copy, PartialEq, Eq, Structural)]
pub struct SettingDialogResult {
    pub success: bool,
}

impl SettingDialogResult {
    /// The registry was changed.
    pub fn success() -> (result: Self)
        ensures
            result.success,
    {
        Self { success: true }
    }

    /// The registry was left as it was.
    pub fn failure() -> (result: Self)
        ensures
            !result.success,
    {
        Self { success: false }
    }
}

impl Default for SettingDialogResult {
    fn default() -> (result: Self)
        ensures
            !result.success,
    {
        Self { success: false }
    }
}

/// The type of the settings that are switched on and off.
pub const BOOLEAN_INPUT_TYPE: &'static str = "BOOLEAN";

/// The position of the first stored value of the given name, if there is
/// one.
pub fn find_value(settings: &Vec<RegistrySetting>, name: &str) -> (found: Option<usize>)
    ensures
        match found {
            Some(at) => at < settings.len() && at == first_position(
                entry_names(settings.deep_view()),
                name@,
            ),
            None => first_position(entry_names(settings.deep_view()), name@) == settings.len(),
        },
{
    let ghost names = entry_names(settings.deep_view());
    let mut i: usize = 0;
    while i < settings.len()
        invariant
            i <= settings.len(),
            names == entry_names(settings.deep_view()),
            forall|k: int| 0 <= k < i ==> names[k] != name@,
        decreases settings.len() - i,
    {
        assert(names[i as int] == settings@[i as int].name@);
        if same_text(settings[i].name.as_str(), name) {
            proof {
                lemma_first_position_is(names, name@, i as int);
            }
            return Some(i);
        }
        i += 1;
    }
    proof {
        lemma_first_position_is(names, name@, settings.len() as int);
    }
    None
}

/// How the dialog stands when it opens.
#[derive(Debug)]
pub struct SettingForm {
    /// The value that the data source stores for the setting, if any.
    pub dsn_value: Option<String>,
    /// The stored value can be deleted.
    pub delete_enabled: bool,
    /// The value cannot be typed: it is switched by the checkbox.
    pub value_readonly: bool,
    /// The checkbox that switches the value is enabled.
    pub bool_checkbox_enabled: bool,
    /// The button that chooses a file is enabled.
    pub fs_path_button_enabled: bool,
}

/// What a [`SettingForm`] holds.
pub struct SettingFormView {
    pub dsn_value: Option<Seq<char>>,
    pub delete_enabled: bool,
    pub value_readonly: bool,
    pub bool_checkbox_enabled: bool,
    pub fs_path_button_enabled: bool,
}

impl View for SettingForm {
    type V = SettingFormView;

    open spec fn view(&self) -> SettingFormView {
        SettingFormView {
            dsn_value: self.dsn_value.deep_view(),
            delete_enabled: self.delete_enabled,
            value_readonly: self.value_readonly,
            bool_checkbox_enabled: self.bool_checkbox_enabled,
            fs_path_button_enabled: self.fs_path_button_enabled,
        }
    }
}

/// Whether the setting holds the path of a file: the database, or the
/// script that is run when a connection is opened.
pub open spec fn holds_file_path(name: Seq<char>) -> bool {
    name == DATABASE_SETTING_NAME@ || name == SESSION_INIT_SQL_FILE_SETTING_NAME@
}

/// How the dialog for a setting of a data source stands when it opens:
/// it shows the first value that the data source stores under the name of
/// the setting; that value can be deleted, unless the setting holds the
/// path of a file, for which a file can be chosen instead; and a setting
/// that is switched on and off has its checkbox in place of a value that
/// is typed.
pub open spec fn form_of(setting: SettingRow, dsn: DsnRecord) -> SettingFormView {
    let at = first_position(entry_names(dsn.settings), setting.name);
    let stored = at < dsn.settings.len();
    SettingFormView {
        dsn_value: if stored {
            Some(dsn.settings[at].value)
        } else {
            None
        },
        delete_enabled: stored && !holds_file_path(setting.name),
        value_readonly: setting.input_type == BOOLEAN_INPUT_TYPE@,
        bool_checkbox_enabled: setting.input_type == BOOLEAN_INPUT_TYPE@,
        fs_path_button_enabled: holds_file_path(setting.name),
    }
}

/// How the dialog for a setting of a data source stands when it opens.
pub fn setting_form(setting: &DuckDbSetting, dsn: &RegistryDsn) -> (form: SettingForm)
    ensures
        form@ == form_of(setting@, dsn@),
{
    let found = find_value(&dsn.settings, setting.name.as_str());
    let (dsn_value, stored) = match found {
        Some(at) => {
            assert(dsn.settings.deep_view()[at as int] == dsn.settings@[at as int]@);
            (Some(dsn.settings[at].value.clone()), true)
        },
        None => (None, false),
    };
    let is_bool = same_text(BOOLEAN_INPUT_TYPE, setting.input_type.as_str());
    let is_path = same_text(DATABASE_SETTING_NAME, setting.name.as_str()) || same_text(
        SESSION_INIT_SQL_FILE_SETTING_NAME,
        setting.name.as_str(),
    );
    SettingForm {
        dsn_value,
        delete_enabled: stored && !is_path,
        value_readonly: is_bool,
        bool_checkbox_enabled: is_bool,
        fs_path_button_enabled: is_path,
    }
}

/// The value that the checkbox of a setting stands for.
pub fn bool_value_text(checked: bool) -> (text: &'static str)
    ensures
        text@ == if checked {
            "true"@
        } else {
            "false"@
        },
{
    if checked {
        "true"
    } else {
        "false"
    }
}

/// The value that is stored for what was entered: the text without the
/// whitespace at its two ends.
pub fn entered_value(text: &str) -> (value: String)
    ensures
        value@ == trimmed_form(text@),
{
    trim(text).to_string()
}

/// Starts storing the value that was entered for a setting with the data
/// source: the value is stored without the whitespace at its two ends.
pub fn apply_value(dsn: &RegistryDsn, setting: &DuckDbSetting, text: &str) -> (exchange: Exchange)
    ensures
        exchange@ == begin(
            OperationView::SetValue {
                dsn_type: dsn@.scope,
                dsn_name: dsn@.name,
                name: setting@.name,
                value: trimmed_form(text@),
            },
        ),
{
    let value = entered_value(text);
    store_value(dsn, setting, value.as_str())
}

/// Starts storing a value for a setting with the data source.
pub fn store_value(dsn: &RegistryDsn, setting: &DuckDbSetting, value: &str) -> (exchange: Exchange)
    ensures
        exchange@ == begin(
            OperationView::SetValue {
                dsn_type: dsn@.scope,
                dsn_name: dsn@.name,
                name: setting@.name,
                value: value@,
            },
        ),
{
    set_dsn_value(dsn.dsn_type, dsn.name.as_str(), setting.name.as_str(), value)
}

/// Starts deleting the value that the data source stores for a setting.
pub fn delete_value(dsn: &RegistryDsn, setting: &DuckDbSetting) -> (exchange: Exchange)
    ensures
        exchange@ == begin(
            OperationView::DeleteValue {
                dsn_type: dsn@.scope,
                dsn_name: dsn@.name,
                name: setting@.name,
            },
        ),
{
    delete_dsn_value(dsn.dsn_type, dsn.name.as_str(), setting.name.as_str())
}

} // verus!
