//! One row of the settings table: a setting of the engine, or a value that
//! is stored with a data source.

use vstd::prelude::*;
use vstd::string::*;

verus! {

/// A setting as the settings table shows it.
#[derive(Debug)]
pub struct DuckDbSetting {
    pub name: String,
    pub dsn_value: String,
    pub default_value: String,
    pub description: String,
    pub input_type: String,
    pub scope: String,
}

/// The texts of a [`DuckDbSetting`].
pub struct SettingRow {
    pub name: Seq<char>,
    pub dsn_value: Seq<char>,
    pub default_value: Seq<char>,
    pub description: Seq<char>,
    pub input_type: Seq<char>,
    pub scope: Seq<char>,
}

impl View for DuckDbSetting {
    type V = SettingRow;

    open spec fn view(&self) -> SettingRow {
        SettingRow {
            name: self.name@,
            dsn_value: self.dsn_value@,
            default_value: self.default_value@,
            description: self.description@,
            input_type: self.input_type@,
            scope: self.scope@,
        }
    }
}

impl DeepView for DuckDbSetting {
    type V = SettingRow;

    open spec fn deep_view(&self) -> SettingRow {
        self@
    }
}

/// The row of a catalog entry: no value is stored with a data source yet.
pub open spec fn catalog_row(
    name: Seq<char>,
    value: Seq<char>,
    input_type: Seq<char>,
    scope: Seq<char>,
    description: Seq<char>,
) -> SettingRow {
    SettingRow {
        name,
        dsn_value: Seq::empty(),
        default_value: value,
        description,
        input_type,
        scope,
    }
}

impl DuckDbSetting {
    /// A catalog entry: a setting with its default value, and no value of
    /// a data source.
    pub fn new(name: &str, value: &str, input_type: &str, scope: &str, description: &str) -> (setting: Self)
        ensures
            setting@ == catalog_row(name@, value@, input_type@, scope@, description@),
    {
        Self {
            name: name.to_string(),
            dsn_value: String::new(),
            default_value: value.to_string(),
            description: description.to_string(),
            input_type: input_type.to_string(),
            scope: scope.to_string(),
        }
    }
}

impl Default for DuckDbSetting {
    /// The row whose texts are all empty.
    fn default() -> (setting: Self)
        ensures
            setting@ == catalog_row(Seq::empty(), Seq::empty(), Seq::empty(), Seq::empty(), Seq::empty()),
    {
        Self {
            name: String::new(),
            dsn_value: String::new(),
            default_value: String::new(),
            description: String::new(),
            input_type: String::new(),
            scope: String::new(),
        }
    }
}

impl Clone for DuckDbSetting {
    fn clone(&self) -> (copy: Self)
        ensures
            copy == *self,
    {
        Self {
            name: self.name.clone(),
            dsn_value: self.dsn_value.clone(),
            default_value: self.default_value.clone(),
            description: self.description.clone(),
            input_type: self.input_type.clone(),
            scope: self.scope.clone(),
        }
    }
}

} // verus!
