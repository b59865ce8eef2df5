//! What holds of the operations on the data sources when the registry
//! answers as its model does.

use vstd::prelude::*;

use crate::common::exchange::{
    already_exists_text, cannot_open_text, driver_key, driver_not_found_text,
    driver_unreadable_text, dsn_key, listing_key, odbc_ini_key, OperationView, OutcomeView,
};
use crate::common::paths::{lemma_keys_apart, lemma_setting_names_apart};
use crate::common::protocol::{child_path, readable, KeyPath, RequestView};
use crate::common::registry::{
    entry_names, scope_root, DsnType, Root, SettingEntry, DATABASE_SETTING_NAME,
    DRIVER_LISTING_LABEL, DRIVER_SETTING_NAME, DS_LISTING_SUBPATH, ODBC_INI_SUBPATH,
};
use crate::common::store_model::{
    all_readable, entry_value, has_entry, has_name, perform, run, with_entry, without_entry,
    without_name, KeyModel, StoreModel,
};
use crate::common::text::{first_position, lemma_first_position, lemma_first_position_is};

verus! {

/// Of a listing in which every item could be read, the items that could
/// be read are all of them.
pub proof fn lemma_readable_all<T>(items: Seq<T>)
    ensures
        readable(all_readable(items)) == items,
    decreases items.len(),
{
    if items.len() == 0 {
        assert(readable(all_readable(items)) =~= items);
    } else {
        lemma_readable_all(items.drop_last());
        assert(all_readable(items).drop_last() =~= all_readable(items.drop_last()));
        assert(readable(all_readable(items)) =~= items);
    }
}

/// Listing the values of a key gives its values and changes nothing; it
/// fails where the key does not exist.
pub proof fn lemma_list_values(store: StoreModel, root: Root, path: Seq<char>, fault: Seq<char>)
    ensures
        perform(OperationView::ListValues { root, path }, store, fault) == if store.has_key(
            KeyPath { root, path },
        ) {
            (Ok(OutcomeView::Settings(store.keys[KeyPath { root, path }].values)), store)
        } else {
            (Err(cannot_open_text(root, path, fault)), store)
        },
{
    reveal_with_fuel(run, 3);
    if store.has_key(KeyPath { root, path }) {
        lemma_readable_all(store.keys[KeyPath { root, path }].values);
    }
}

/// Listing the subkeys of a key gives their names and changes nothing;
/// it fails where the key does not exist.
pub proof fn lemma_list_subkeys(store: StoreModel, root: Root, path: Seq<char>, fault: Seq<char>)
    ensures
        perform(OperationView::ListSubkeys { root, path }, store, fault) == if store.has_key(
            KeyPath { root, path },
        ) {
            (Ok(OutcomeView::Names(store.keys[KeyPath { root, path }].subkeys)), store)
        } else {
            (Err(cannot_open_text(root, path, fault)), store)
        },
{
    reveal_with_fuel(run, 3);
    if store.has_key(KeyPath { root, path }) {
        lemma_readable_all(store.keys[KeyPath { root, path }].subkeys);
    }
}

/// Reading the path of the driver gives the value `Driver` of its
/// registration and changes nothing; it fails where the driver is not
/// registered, or where its registration has no such value.
pub proof fn lemma_driver_path(store: StoreModel, fault: Seq<char>)
    ensures
        perform(OperationView::DriverPath, store, fault) == if !store.has_key(driver_key()) {
            (Err(driver_not_found_text(fault)), store)
        } else if !has_entry(store.keys[driver_key()].values, DRIVER_SETTING_NAME@) {
            (Err(driver_unreadable_text(fault)), store)
        } else {
            (
                Ok(OutcomeView::Text(entry_value(store.keys[driver_key()].values, DRIVER_SETTING_NAME@))),
                store,
            )
        },
{
    reveal_with_fuel(run, 3);
}

/// The registry with the values of one key replaced.
pub open spec fn with_values(store: StoreModel, key: KeyPath, values: Seq<SettingEntry>) -> StoreModel {
    StoreModel { keys: store.keys.insert(key, KeyModel { values, ..store.keys[key] }) }
}

/// Setting a value of a data source sets it under the key of the data
/// source; it fails, and changes nothing, where that key does not exist.
pub proof fn lemma_set_value(
    store: StoreModel,
    dsn_type: DsnType,
    dsn_name: Seq<char>,
    name: Seq<char>,
    value: Seq<char>,
    fault: Seq<char>,
)
    ensures
        perform(OperationView::SetValue { dsn_type, dsn_name, name, value }, store, fault) == if store.has_key(
            dsn_key(dsn_type, dsn_name),
        ) {
            (
                Ok(OutcomeView::Done),
                with_values(
                    store,
                    dsn_key(dsn_type, dsn_name),
                    with_entry(store.keys[dsn_key(dsn_type, dsn_name)].values, name, value),
                ),
            )
        } else {
            (
                Err(
                    cannot_open_text(scope_root(dsn_type), child_path(ODBC_INI_SUBPATH@, dsn_name), fault),
                ),
                store,
            )
        },
{
    reveal_with_fuel(run, 3);
}

/// Deleting a value of a data source removes it from the key of the data
/// source; it fails, and changes nothing, where that key does not exist
/// or has no such value.
pub proof fn lemma_delete_value(
    store: StoreModel,
    dsn_type: DsnType,
    dsn_name: Seq<char>,
    name: Seq<char>,
    fault: Seq<char>,
)
    ensures
        perform(OperationView::DeleteValue { dsn_type, dsn_name, name }, store, fault) == if !store.has_key(
            dsn_key(dsn_type, dsn_name),
        ) {
            (
                Err(
                    cannot_open_text(scope_root(dsn_type), child_path(ODBC_INI_SUBPATH@, dsn_name), fault),
                ),
                store,
            )
        } else if !has_entry(store.keys[dsn_key(dsn_type, dsn_name)].values, name) {
            (Err(fault), store)
        } else {
            (
                Ok(OutcomeView::Done),
                with_values(
                    store,
                    dsn_key(dsn_type, dsn_name),
                    without_entry(store.keys[dsn_key(dsn_type, dsn_name)].values, name),
                ),
            )
        },
{
    reveal_with_fuel(run, 3);
}

/// Once a value is set, it is the first of its name; the values are as
/// many as before where the name was there, and one more where it was
/// not; and names that differed still differ.
pub proof fn lemma_with_entry(values: Seq<SettingEntry>, name: Seq<char>, value: Seq<char>)
    ensures
        has_entry(with_entry(values, name, value), name),
        entry_value(with_entry(values, name, value), name) == value,
        with_entry(values, name, value).len() == if has_entry(values, name) {
            values.len()
        } else {
            values.len() + 1
        },
        entry_names(values).no_duplicates() ==> entry_names(
            with_entry(values, name, value),
        ).no_duplicates(),
{
    let names = entry_names(values);
    let at = first_position(names, name);
    let after = with_entry(values, name, value);
    lemma_first_position(names, name);
    if has_entry(values, name) {
        assert(entry_names(after) =~= names);
    } else {
        assert(entry_names(after) =~= names.push(name));
        lemma_first_position_is(entry_names(after), name, at);
        if names.no_duplicates() {
            assert forall|i: int, j: int|
                0 <= i < names.push(name).len() && 0 <= j < names.push(name).len() && i
                    != j implies names.push(name)[i] != names.push(name)[j] by {
                if i < names.len() && j < names.len() {
                    assert(names[i] != names[j]);
                }
            }
        }
    }
}

/// Setting a value leaves the values of the other names as they were.
pub proof fn lemma_with_entry_other(
    values: Seq<SettingEntry>,
    name: Seq<char>,
    value: Seq<char>,
    other: Seq<char>,
)
    requires
        other != name,
    ensures
        has_entry(with_entry(values, name, value), other) == has_entry(values, other),
        has_entry(values, other) ==> entry_value(with_entry(values, name, value), other) == entry_value(
            values,
            other,
        ),
{
    let names = entry_names(values);
    let after = with_entry(values, name, value);
    lemma_first_position(names, name);
    lemma_first_position(names, other);
    let k = first_position(names, other);
    if has_entry(values, name) {
        assert(entry_names(after) =~= names);
    } else {
        assert(entry_names(after) =~= names.push(name));
        if k < names.len() {
            lemma_first_position_is(entry_names(after), other, k);
        } else {
            lemma_first_position_is(entry_names(after), other, entry_names(after).len() as int);
        }
    }
}

/// Once the first value of a name is deleted, no value has the name where
/// no two values had one name.
pub proof fn lemma_without_entry(values: Seq<SettingEntry>, name: Seq<char>)
    requires
        entry_names(values).no_duplicates(),
    ensures
        !has_entry(without_entry(values, name), name),
        entry_names(without_entry(values, name)).no_duplicates(),
{
    let names = entry_names(values);
    let at = first_position(names, name);
    let after = without_entry(values, name);
    lemma_first_position(names, name);
    if has_entry(values, name) {
        assert(entry_names(after) =~= names.remove(at));
        assert forall|k: int| 0 <= k < entry_names(after).len() implies entry_names(after)[k]
            != name by {
            if k < at {
                assert(entry_names(after)[k] == names[k]);
            } else {
                assert(entry_names(after)[k] == names[k + 1]);
                assert(names[k + 1] != names[at]);
            }
        }
        lemma_first_position_is(entry_names(after), name, entry_names(after).len() as int);
        assert forall|i: int, j: int|
            0 <= i < names.remove(at).len() && 0 <= j < names.remove(at).len() && i
                != j implies names.remove(at)[i] != names.remove(at)[j] by {
            let i0 = if i < at { i } else { i + 1 };
            let j0 = if j < at { j } else { j + 1 };
            assert(names[i0] != names[j0]);
        }
    }
}

/// A value that is set for a data source is what a listing of its values
/// then gives under the name of the value, and the listing leaves the
/// registry as it is. Where the name was there, its value is replaced and
/// the values are as many as before; where it was not, they are one more.
/// No name is there twice afterwards that was not before.
pub proof fn law_set_value_then_list(
    store: StoreModel,
    dsn_type: DsnType,
    dsn_name: Seq<char>,
    name: Seq<char>,
    value: Seq<char>,
    fault: Seq<char>,
)
    requires
        store.has_key(dsn_key(dsn_type, dsn_name)),
    ensures
        ({
            let before = store.keys[dsn_key(dsn_type, dsn_name)].values;
            let set = perform(OperationView::SetValue { dsn_type, dsn_name, name, value }, store, fault);
            let listed = perform(
                OperationView::ListValues {
                    root: scope_root(dsn_type),
                    path: child_path(ODBC_INI_SUBPATH@, dsn_name),
                },
                set.1,
                fault,
            );
            &&& set.0 == Ok::<OutcomeView, Seq<char>>(OutcomeView::Done)
            &&& listed.1 == set.1
            &&& listed.0 == Ok::<OutcomeView, Seq<char>>(
                OutcomeView::Settings(with_entry(before, name, value)),
            )
            &&& has_entry(with_entry(before, name, value), name)
            &&& entry_value(with_entry(before, name, value), name) == value
            &&& with_entry(before, name, value).len() == if has_entry(before, name) {
                before.len()
            } else {
                before.len() + 1
            }
            &&& entry_names(before).no_duplicates() ==> entry_names(
                with_entry(before, name, value),
            ).no_duplicates()
        }),
{
    let key = dsn_key(dsn_type, dsn_name);
    let before = store.keys[key].values;
    lemma_set_value(store, dsn_type, dsn_name, name, value, fault);
    let after = with_values(store, key, with_entry(before, name, value));
    lemma_list_values(after, scope_root(dsn_type), child_path(ODBC_INI_SUBPATH@, dsn_name), fault);
    lemma_with_entry(before, name, value);
}

/// A value that is set again is replaced: a listing gives the second
/// value under the name, and as many values as after the first time.
pub proof fn law_set_value_again_overwrites(
    store: StoreModel,
    dsn_type: DsnType,
    dsn_name: Seq<char>,
    name: Seq<char>,
    first: Seq<char>,
    second: Seq<char>,
    fault: Seq<char>,
)
    requires
        store.has_key(dsn_key(dsn_type, dsn_name)),
    ensures
        ({
            let once = perform(
                OperationView::SetValue { dsn_type, dsn_name, name, value: first },
                store,
                fault,
            );
            let twice = perform(
                OperationView::SetValue { dsn_type, dsn_name, name, value: second },
                once.1,
                fault,
            );
            let values_once = once.1.keys[dsn_key(dsn_type, dsn_name)].values;
            let values_twice = twice.1.keys[dsn_key(dsn_type, dsn_name)].values;
            &&& twice.0 == Ok::<OutcomeView, Seq<char>>(OutcomeView::Done)
            &&& values_twice.len() == values_once.len()
            &&& entry_value(values_twice, name) == second
            &&& values_twice == values_once.update(
                first_position(entry_names(values_once), name),
                SettingEntry { name, value: second },
            )
        }),
{
    let key = dsn_key(dsn_type, dsn_name);
    let before = store.keys[key].values;
    lemma_set_value(store, dsn_type, dsn_name, name, first, fault);
    let once = with_values(store, key, with_entry(before, name, first));
    lemma_with_entry(before, name, first);
    lemma_set_value(once, dsn_type, dsn_name, name, second, fault);
    lemma_with_entry(once.keys[key].values, name, second);
}

/// Deleting a value that a data source does not have fails and changes
/// nothing.
pub proof fn law_delete_missing_value_fails(
    store: StoreModel,
    dsn_type: DsnType,
    dsn_name: Seq<char>,
    name: Seq<char>,
    fault: Seq<char>,
)
    requires
        !store.has_key(dsn_key(dsn_type, dsn_name)) || !has_entry(
            store.keys[dsn_key(dsn_type, dsn_name)].values,
            name,
        ),
    ensures
        perform(OperationView::DeleteValue { dsn_type, dsn_name, name }, store, fault).0 is Err,
        perform(OperationView::DeleteValue { dsn_type, dsn_name, name }, store, fault).1 == store,
{
    lemma_delete_value(store, dsn_type, dsn_name, name, fault);
}

/// A value of a data source that is deleted is in no listing of its values
/// afterwards; the other values are listed as before.
pub proof fn law_delete_value_then_list(
    store: StoreModel,
    dsn_type: DsnType,
    dsn_name: Seq<char>,
    name: Seq<char>,
    fault: Seq<char>,
)
    requires
        store.has_key(dsn_key(dsn_type, dsn_name)),
        has_entry(store.keys[dsn_key(dsn_type, dsn_name)].values, name),
        entry_names(store.keys[dsn_key(dsn_type, dsn_name)].values).no_duplicates(),
    ensures
        ({
            let before = store.keys[dsn_key(dsn_type, dsn_name)].values;
            let deleted = perform(OperationView::DeleteValue { dsn_type, dsn_name, name }, store, fault);
            let listed = perform(
                OperationView::ListValues {
                    root: scope_root(dsn_type),
                    path: child_path(ODBC_INI_SUBPATH@, dsn_name),
                },
                deleted.1,
                fault,
            );
            &&& deleted.0 == Ok::<OutcomeView, Seq<char>>(OutcomeView::Done)
            &&& listed.0 == Ok::<OutcomeView, Seq<char>>(OutcomeView::Settings(without_entry(before, name)))
            &&& !has_entry(without_entry(before, name), name)
            &&& without_entry(before, name).len() + 1 == before.len()
        }),
{
    let key = dsn_key(dsn_type, dsn_name);
    let before = store.keys[key].values;
    lemma_delete_value(store, dsn_type, dsn_name, name, fault);
    let after = with_values(store, key, without_entry(before, name));
    lemma_list_values(after, scope_root(dsn_type), child_path(ODBC_INI_SUBPATH@, dsn_name), fault);
    lemma_without_entry(before, name);
    lemma_first_position(entry_names(before), name);
}

/// A data source is not made under a name that is taken in its scope,
/// whatever holds the name: the operation fails with the message that
/// the data source exists, and the registry stays as it is.
pub proof fn law_create_taken_name_refused(
    store: StoreModel,
    dsn_type: DsnType,
    name: Seq<char>,
    database: Seq<char>,
    fault: Seq<char>,
)
    requires
        store.has_key(odbc_ini_key(dsn_type)),
        store.has_key(dsn_key(dsn_type, name)),
    ensures
        perform(OperationView::CreateDsn { dsn_type, name, database }, store, fault) == (
            Err::<OutcomeView, Seq<char>>(already_exists_text(name)),
            store,
        ),
{
    reveal_with_fuel(run, 3);
}

/// Whether the driver is registered with the given path of its file.
pub open spec fn driver_registered(store: StoreModel, driver_path: Seq<char>) -> bool {
    &&& store.has_key(driver_key())
    &&& has_entry(store.keys[driver_key()].values, DRIVER_SETTING_NAME@)
    &&& entry_value(store.keys[driver_key()].values, DRIVER_SETTING_NAME@) == driver_path
}

/// The path of the driver's file as the driver is registered with it.
pub open spec fn registered_path(store: StoreModel) -> Seq<char> {
    entry_value(store.keys[driver_key()].values, DRIVER_SETTING_NAME@)
}

/// Whether a data source of the given name can be made in a scope: the
/// key of the scope exists, the name is free in it, the driver is
/// registered, and the listing of the scope exists or is what the data
/// source would be.
pub open spec fn can_create(store: StoreModel, dsn_type: DsnType, name: Seq<char>) -> bool {
    &&& store.has_key(odbc_ini_key(dsn_type))
    &&& !store.has_key(dsn_key(dsn_type, name))
    &&& driver_registered(store, registered_path(store))
    &&& (store.has_key(listing_key(dsn_type)) || name == DS_LISTING_SUBPATH@)
}

/// The registry once a data source is made: its key, its two values, and
/// its entry in the listing.
pub open spec fn created(
    store: StoreModel,
    dsn_type: DsnType,
    name: Seq<char>,
    database: Seq<char>,
) -> StoreModel {
    store.after(RequestView::CreateSubkey { parent: odbc_ini_key(dsn_type), name }).after(
        RequestView::SetValue {
            key: dsn_key(dsn_type, name),
            name: DRIVER_SETTING_NAME@,
            value: registered_path(store),
        },
    ).after(
        RequestView::SetValue { key: dsn_key(dsn_type, name), name: DATABASE_SETTING_NAME@, value: database },
    ).after(
        RequestView::SetValue { key: listing_key(dsn_type), name, value: DRIVER_LISTING_LABEL@ },
    )
}

/// A data source is made exactly where it can be, and then the registry
/// holds its key, its two values and its entry in the listing.
pub proof fn lemma_create_dsn(
    store: StoreModel,
    dsn_type: DsnType,
    name: Seq<char>,
    database: Seq<char>,
    fault: Seq<char>,
)
    ensures
        perform(OperationView::CreateDsn { dsn_type, name, database }, store, fault).0 is Ok
            <==> can_create(store, dsn_type, name),
        can_create(store, dsn_type, name) ==> perform(
            OperationView::CreateDsn { dsn_type, name, database },
            store,
            fault,
        ) == (Ok::<OutcomeView, Seq<char>>(OutcomeView::Done), created(store, dsn_type, name, database)),
{
    reveal_with_fuel(run, 11);
    lemma_keys_apart(dsn_type, name, DS_LISTING_SUBPATH@);
}

/// Whether the data source of the given name can be deleted from a
/// scope: the key of the scope exists; the data source has a key there,
/// without subkeys, that is not the listing itself; and the listing
/// exists and has an entry of the name.
pub open spec fn can_delete(store: StoreModel, dsn_type: DsnType, name: Seq<char>) -> bool {
    &&& store.has_key(odbc_ini_key(dsn_type))
    &&& store.has_key(dsn_key(dsn_type, name))
    &&& store.keys[dsn_key(dsn_type, name)].subkeys.len() == 0
    &&& name != DS_LISTING_SUBPATH@
    &&& store.has_key(listing_key(dsn_type))
    &&& has_entry(store.keys[listing_key(dsn_type)].values, name)
}

/// The registry once a data source is deleted: without its key and
/// without its entry in the listing.
pub open spec fn deleted(store: StoreModel, dsn_type: DsnType, name: Seq<char>) -> StoreModel {
    store.after(RequestView::DeleteSubkey { parent: odbc_ini_key(dsn_type), name }).after(
        RequestView::DeleteValue { key: listing_key(dsn_type), name },
    )
}

/// A data source is deleted exactly where it can be, and then the
/// registry is without its key and without its entry in the listing.
pub proof fn lemma_delete_dsn(store: StoreModel, dsn_type: DsnType, name: Seq<char>, fault: Seq<char>)
    ensures
        perform(OperationView::DeleteDsn { dsn_type, name }, store, fault).0 is Ok <==> can_delete(
            store,
            dsn_type,
            name,
        ),
        can_delete(store, dsn_type, name) ==> perform(
            OperationView::DeleteDsn { dsn_type, name },
            store,
            fault,
        ) == (Ok::<OutcomeView, Seq<char>>(OutcomeView::Done), deleted(store, dsn_type, name)),
{
    reveal_with_fuel(run, 5);
    lemma_keys_apart(dsn_type, name, DS_LISTING_SUBPATH@);
}

/// Whether the data sources of a scope can be listed: the key of the
/// scope exists, it names no subkey twice, and every subkey that it
/// names has a key.
pub open spec fn listable(store: StoreModel, dsn_type: DsnType) -> bool {
    &&& store.has_key(odbc_ini_key(dsn_type))
    &&& store.keys[odbc_ini_key(dsn_type)].subkeys.no_duplicates()
    &&& forall|i: int|
        0 <= i < store.keys[odbc_ini_key(dsn_type)].subkeys.len() ==> store.has_key(
            dsn_key(dsn_type, #[trigger] store.keys[odbc_ini_key(dsn_type)].subkeys[i]),
        )
}

/// What making a data source leaves of the registry: the data source is
/// the last subkey of its scope and has the path of the driver and its
/// database as values; the driver stays registered; the other subkeys of
/// the scope keep their values, but for the listing; and the other scope
/// stays as it is.
pub proof fn lemma_created(
    store: StoreModel,
    dsn_type: DsnType,
    name: Seq<char>,
    database: Seq<char>,
    other_type: DsnType,
    other: Seq<char>,
)
    requires
        can_create(store, dsn_type, name),
    ensures
        ({
            let after = created(store, dsn_type, name, database);
            let values = after.keys[dsn_key(dsn_type, name)].values;
            &&& after.has_key(odbc_ini_key(dsn_type))
            &&& after.keys[odbc_ini_key(dsn_type)].subkeys == store.keys[odbc_ini_key(dsn_type)].subkeys.push(
                name,
            )
            &&& after.has_key(dsn_key(dsn_type, name))
            &&& has_entry(values, DRIVER_SETTING_NAME@)
            &&& entry_value(values, DRIVER_SETTING_NAME@) == registered_path(store)
            &&& has_entry(values, DATABASE_SETTING_NAME@)
            &&& entry_value(values, DATABASE_SETTING_NAME@) == database
            &&& driver_registered(after, registered_path(store))
            &&& store.has_key(dsn_key(other_type, other)) ==> after.has_key(dsn_key(other_type, other))
            &&& store.has_key(dsn_key(other_type, other)) && !(other_type == dsn_type && other
                == DS_LISTING_SUBPATH@) ==> after.keys[dsn_key(other_type, other)] == store.keys[dsn_key(
                other_type,
                other,
            )]
            &&& other_type != dsn_type && store.has_key(odbc_ini_key(other_type)) ==> after.has_key(
                odbc_ini_key(other_type),
            ) && after.keys[odbc_ini_key(other_type)] == store.keys[odbc_ini_key(other_type)]
        }),
{
    lemma_keys_apart(dsn_type, name, DS_LISTING_SUBPATH@);
    lemma_keys_apart(dsn_type, name, other);
    lemma_keys_apart(dsn_type, DS_LISTING_SUBPATH@, name);
    lemma_keys_apart(dsn_type, other, DS_LISTING_SUBPATH@);
    lemma_keys_apart(other_type, other, DS_LISTING_SUBPATH@);
    lemma_keys_apart(other_type, name, other);
    lemma_setting_names_apart();
    let path = registered_path(store);
    let made = store.after(RequestView::CreateSubkey { parent: odbc_ini_key(dsn_type), name });
    let first = made.after(
        RequestView::SetValue { key: dsn_key(dsn_type, name), name: DRIVER_SETTING_NAME@, value: path },
    );
    let second = first.after(
        RequestView::SetValue { key: dsn_key(dsn_type, name), name: DATABASE_SETTING_NAME@, value: database },
    );
    let values1 = first.keys[dsn_key(dsn_type, name)].values;
    let values2 = second.keys[dsn_key(dsn_type, name)].values;
    assert(made.keys[dsn_key(dsn_type, name)].values =~= Seq::<SettingEntry>::empty());
    lemma_with_entry(Seq::<SettingEntry>::empty(), DRIVER_SETTING_NAME@, path);
    lemma_with_entry(values1, DATABASE_SETTING_NAME@, database);
    lemma_with_entry_other(values1, DATABASE_SETTING_NAME@, database, DRIVER_SETTING_NAME@);
    if name == DS_LISTING_SUBPATH@ {
        lemma_with_entry(values2, name, DRIVER_LISTING_LABEL@);
        if name != DRIVER_SETTING_NAME@ {
            lemma_with_entry_other(values2, name, DRIVER_LISTING_LABEL@, DRIVER_SETTING_NAME@);
        }
        if name != DATABASE_SETTING_NAME@ {
            lemma_with_entry_other(values2, name, DRIVER_LISTING_LABEL@, DATABASE_SETTING_NAME@);
        }
        lemma_listing_name_apart();
    }
}

/// The listing is named like neither of the two values of a data source.
pub proof fn lemma_listing_name_apart()
    ensures
        DS_LISTING_SUBPATH@ != DRIVER_SETTING_NAME@,
        DS_LISTING_SUBPATH@ != DATABASE_SETTING_NAME@,
{
    reveal_strlit("ODBC Data Sources");
    reveal_strlit("Driver");
    reveal_strlit("database");
    assert(DS_LISTING_SUBPATH@.len() == 17);
    assert(DRIVER_SETTING_NAME@.len() == 6);
    assert(DATABASE_SETTING_NAME@.len() == 8);
}

/// Names of which none is there twice are, without one of them, the
/// other names, each once and in their order.
pub proof fn lemma_without_name(names: Seq<Seq<char>>, name: Seq<char>)
    requires
        names.no_duplicates(),
    ensures
        without_name(names, name).no_duplicates(),
        !has_name(without_name(names, name), name),
        forall|i: int|
            0 <= i < without_name(names, name).len() ==> names.contains(
                #[trigger] without_name(names, name)[i],
            ) && without_name(names, name)[i] != name,
{
    let at = first_position(names, name);
    let rest = without_name(names, name);
    lemma_first_position(names, name);
    if has_name(names, name) {
        assert forall|i: int| 0 <= i < rest.len() implies names.contains(#[trigger] rest[i]) && rest[i]
            != name by {
            let i0 = if i < at { i } else { i + 1 };
            assert(rest[i] == names[i0]);
            assert(names[i0] != names[at]);
        }
        assert forall|i: int, j: int| 0 <= i < rest.len() && 0 <= j < rest.len() && i != j implies rest[i]
            != rest[j] by {
            let i0 = if i < at { i } else { i + 1 };
            let j0 = if j < at { j } else { j + 1 };
            assert(names[i0] != names[j0]);
        }
        lemma_first_position_is(rest, name, rest.len() as int);
    } else {
        assert forall|i: int| 0 <= i < rest.len() implies names.contains(#[trigger] rest[i]) && rest[i]
            != name by {}
    }
}

/// What deleting a data source leaves of the registry: the scope names
/// its other subkeys as before and the data source no more; the key of
/// the data source is gone; the driver stays registered; the other
/// subkeys of the scope keep their values, but for the listing; and the
/// other scope stays as it is.
pub proof fn lemma_deleted(
    store: StoreModel,
    dsn_type: DsnType,
    name: Seq<char>,
    other_type: DsnType,
    other: Seq<char>,
)
    requires
        can_delete(store, dsn_type, name),
    ensures
        ({
            let after = deleted(store, dsn_type, name);
            &&& after.has_key(odbc_ini_key(dsn_type))
            &&& after.keys[odbc_ini_key(dsn_type)].subkeys == without_name(
                store.keys[odbc_ini_key(dsn_type)].subkeys,
                name,
            )
            &&& !after.has_key(dsn_key(dsn_type, name))
            &&& after.has_key(listing_key(dsn_type))
            &&& after.keys[listing_key(dsn_type)].values == without_entry(
                store.keys[listing_key(dsn_type)].values,
                name,
            )
            &&& driver_registered(store, registered_path(store)) ==> driver_registered(
                after,
                registered_path(store),
            )
            &&& store.has_key(dsn_key(other_type, other)) && !(other_type == dsn_type && other == name)
                ==> after.has_key(dsn_key(other_type, other))
            &&& store.has_key(dsn_key(other_type, other)) && !(other_type == dsn_type && (other == name
                || other == DS_LISTING_SUBPATH@)) ==> after.keys[dsn_key(other_type, other)]
                == store.keys[dsn_key(other_type, other)]
            &&& other_type != dsn_type && store.has_key(odbc_ini_key(other_type)) ==> after.has_key(
                odbc_ini_key(other_type),
            ) && after.keys[odbc_ini_key(other_type)] == store.keys[odbc_ini_key(other_type)]
        }),
{
    lemma_keys_apart(dsn_type, name, DS_LISTING_SUBPATH@);
    lemma_keys_apart(dsn_type, name, other);
    lemma_keys_apart(dsn_type, DS_LISTING_SUBPATH@, name);
    lemma_keys_apart(dsn_type, other, DS_LISTING_SUBPATH@);
    lemma_keys_apart(other_type, other, DS_LISTING_SUBPATH@);
    lemma_keys_apart(other_type, name, other);
}

/// Making a data source leaves both scopes such that their data sources
/// can be listed, where they were so before.
pub proof fn lemma_created_listable(
    store: StoreModel,
    dsn_type: DsnType,
    name: Seq<char>,
    database: Seq<char>,
    scope: DsnType,
)
    requires
        can_create(store, dsn_type, name),
        listable(store, scope),
    ensures
        listable(created(store, dsn_type, name, database), scope),
{
    let after = created(store, dsn_type, name, database);
    let before = store.keys[odbc_ini_key(scope)].subkeys;
    let names = after.keys[odbc_ini_key(scope)].subkeys;
    lemma_created(store, dsn_type, name, database, scope, name);
    if scope == dsn_type {
        assert(names == before.push(name));
        assert forall|i: int| 0 <= i < names.len() implies after.has_key(
            dsn_key(scope, #[trigger] names[i]),
        ) by {
            if i < before.len() {
                assert(names[i] == before[i]);
                lemma_created(store, dsn_type, name, database, scope, before[i]);
            }
        }
        assert forall|i: int, j: int| 0 <= i < names.len() && 0 <= j < names.len() && i != j implies names[i]
            != names[j] by {
            if i < before.len() && j < before.len() {
                assert(before[i] != before[j]);
            } else if i < before.len() {
                assert(store.has_key(dsn_key(scope, before[i])));
            } else {
                assert(store.has_key(dsn_key(scope, before[j])));
            }
        }
    } else {
        assert(names == before);
        assert forall|i: int| 0 <= i < names.len() implies after.has_key(
            dsn_key(scope, #[trigger] names[i]),
        ) by {
            lemma_created(store, dsn_type, name, database, scope, before[i]);
        }
    }
}

/// Deleting a data source leaves both scopes such that their data
/// sources can be listed, where they were so before.
pub proof fn lemma_deleted_listable(store: StoreModel, dsn_type: DsnType, name: Seq<char>, scope: DsnType)
    requires
        can_delete(store, dsn_type, name),
        listable(store, scope),
    ensures
        listable(deleted(store, dsn_type, name), scope),
{
    let after = deleted(store, dsn_type, name);
    let before = store.keys[odbc_ini_key(scope)].subkeys;
    let names = after.keys[odbc_ini_key(scope)].subkeys;
    lemma_deleted(store, dsn_type, name, scope, name);
    if scope == dsn_type {
        lemma_without_name(before, name);
        assert forall|i: int| 0 <= i < names.len() implies after.has_key(
            dsn_key(scope, #[trigger] names[i]),
        ) by {
            let j = choose|j: int| 0 <= j < before.len() && before[j] == names[i];
            assert(store.has_key(dsn_key(scope, before[j])));
            lemma_deleted(store, dsn_type, name, scope, names[i]);
        }
    } else {
        assert(names == before);
        assert forall|i: int| 0 <= i < names.len() implies after.has_key(
            dsn_key(scope, #[trigger] names[i]),
        ) by {
            lemma_deleted(store, dsn_type, name, scope, before[i]);
        }
    }
}

} // verus!
