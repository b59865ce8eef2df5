//! What the main window shows for the data source that is selected, and
//! how it answers a click on a column of the settings table.

use vstd::prelude::*;
use vstd::string::*;

use crate::app_window::settings_view::{
    is_stable_sort, merge_dsn_settings, merge_entries, sort_settings,
};
use crate::common::all_settings::{all_settings, catalog};
use crate::common::duckdb_setting::{DuckDbSetting, SettingRow};
use crate::common::registry::{DsnRecord, RegistryDsn};
use crate::common::text::{
    concat3, first_position, lemma_first_position, lemma_first_position_is, same_text,
};

verus! {

/// The names of the data sources.
pub open spec fn dsn_names(dsns: Seq<DsnRecord>) -> Seq<Seq<char>> {
    dsns.map_values(|dsn: DsnRecord| dsn.name)
}

/// The position of the first data source of the given name, if there is
/// one.
pub fn find_dsn(dsns: &Vec<RegistryDsn>, name: &str) -> (found: Option<usize>)
    ensures
        match found {
            Some(at) => at < dsns.len() && at == first_position(dsn_names(dsns.deep_view()), name@),
            None => first_position(dsn_names(dsns.deep_view()), name@) == dsns.len(),
        },
{
    let ghost names = dsn_names(dsns.deep_view());
    let mut i: usize = 0;
    while i < dsns.len()
        invariant
            i <= dsns.len(),
            names == dsn_names(dsns.deep_view()),
            forall|k: int| 0 <= k < i ==> names[k] != name@,
        decreases dsns.len() - i,
    {
        assert(names[i as int] == dsns@[i as int].name@);
        if same_text(dsns[i].name.as_str(), name) {
            proof {
                lemma_first_position_is(names, name@, i as int);
            }
            return Some(i);
        }
        i += 1;
    }
    proof {
        lemma_first_position_is(names, name@, dsns.len() as int);
    }
    None
}

/// The connection string that selects a data source by its name.
pub open spec fn connection_text(name: Seq<char>) -> Seq<char> {
    "DSN={"@ + name + "};"@
}

/// The connection string that selects a data source by its name.
pub fn connection_string(name: &str) -> (text: String)
    ensures
        text@ == connection_text(name@),
{
    concat3("DSN={", name, "};")
}

/// What the main window shows for a selection: the connection string and
/// the rows of the settings table.
#[derive(Debug)]
pub struct DsnDisplay {
    pub conn_str: String,
    pub settings: Vec<DuckDbSetting>,
}

/// The data source that a selection stands for: the first of the
/// selected name, if a name is selected and a data source has it.
pub open spec fn selected_dsn(dsns: Seq<DsnRecord>, selection: Option<Seq<char>>) -> Option<DsnRecord> {
    match selection {
        Some(name) => if first_position(dsn_names(dsns), name) < dsns.len() {
            Some(dsns[first_position(dsn_names(dsns), name)])
        } else {
            None
        },
        None => None,
    }
}

/// The rows of the settings table before they are sorted: the catalog,
/// with the values of the selected data source merged in.
pub open spec fn merged_rows(selected: Option<DsnRecord>) -> Seq<SettingRow> {
    match selected {
        Some(dsn) => merge_entries(catalog(), dsn.settings),
        None => catalog(),
    }
}

/// Whether `rows` are the merged rows sorted by name and then, keeping
/// that order among equal values, by the value of the data source,
/// descending: the settings that the data source sets come first.
pub open spec fn is_display_order(rows: Seq<SettingRow>, merged: Seq<SettingRow>) -> bool {
    exists|by_name: Seq<SettingRow>|
        is_stable_sort(by_name, merged, 0, false) && #[trigger] is_stable_sort(rows, by_name, 1, true)
}

/// What the main window shows once the selection among the data sources
/// has changed.
pub fn on_dsn_changed(dsns: &Vec<RegistryDsn>, selection: Option<&str>) -> (display: DsnDisplay)
    ensures
        display.conn_str@ == match selected_dsn(dsns.deep_view(), selection.deep_view()) {
            Some(dsn) => connection_text(dsn.name),
            None => Seq::<char>::empty(),
        },
        is_display_order(
            display.settings.deep_view(),
            merged_rows(selected_dsn(dsns.deep_view(), selection.deep_view())),
        ),
{
    let mut settings = all_settings();
    let mut conn_str = String::new();
    match selection {
        Some(name) => {
            match find_dsn(dsns, name) {
                Some(at) => {
                    assert(dsns.deep_view()[at as int] == dsns@[at as int]@);
                    proof {
                        lemma_first_position(dsn_names(dsns.deep_view()), name@);
                    }
                    conn_str = connection_string(name);
                    merge_dsn_settings(&mut settings, &dsns[at].settings);
                },
                None => {},
            }
        },
        None => {},
    }
    let ghost merged = settings.deep_view();
    sort_settings(&mut settings, 0, false);
    let ghost by_name = settings.deep_view();
    sort_settings(&mut settings, 1, true);
    assert(is_stable_sort(settings.deep_view(), by_name, 1, true));
    DsnDisplay { conn_str, settings }
}

/// The arrow in the header of a column of the settings table.
#[derive(Debug, Clone, Copy, PartialEq, Eq, Structural)]
pub enum SortArrow {
    Up,
    Down,
}

/// The arrow that follows on a click: the other one.
pub open spec fn toggled(arrow: SortArrow) -> SortArrow {
    match arrow {
        SortArrow::Up => SortArrow::Down,
        SortArrow::Down => SortArrow::Up,
    }
}

/// Answers a click on the header of a column: the rows are sorted by one
/// of the first three columns, descending where the new arrow points up,
/// and the new arrow is returned. A click on another column changes
/// nothing.
pub fn on_settings_view_sort(settings: &mut Vec<DuckDbSetting>, col_idx: usize, arrow: SortArrow) -> (shown:
    Option<SortArrow>)
    ensures
        col_idx > 2 ==> shown is None && final(settings).deep_view() == old(settings).deep_view(),
        col_idx <= 2 ==> shown == Some(toggled(arrow)) && is_stable_sort(
            final(settings).deep_view(),
            old(settings).deep_view(),
            col_idx,
            toggled(arrow) == SortArrow::Up,
        ),
{
    if col_idx > 2 {
        return None;
    }
    let next = match arrow {
        SortArrow::Up => SortArrow::Down,
        SortArrow::Down => SortArrow::Up,
    };
    let desc = match next {
        SortArrow::Up => true,
        SortArrow::Down => false,
    };
    sort_settings(settings, col_idx, desc);
    Some(next)
}

/// The data source that the list selects by itself once it is filled
/// again: the first one, where there is one and the selection that was
/// there before could not be restored.
pub fn fallback_selection(dsn_count: usize, restored: bool) -> (selected: Option<usize>)
    ensures
        selected == if dsn_count > 0 && !restored {
            Some(0usize)
        } else {
            None
        },
{
    if dsn_count > 0 && !restored {
        Some(0)
    } else {
        None
    }
}

} // verus!
