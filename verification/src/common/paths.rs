//! What sets the keys of the data sources apart: no two of them have one
//! path.

use vstd::prelude::*;

use crate::common::exchange::{driver_key, dsn_key, listing_key, odbc_ini_key};
use crate::common::protocol::{child_path, PATH_SEPARATOR};
use crate::common::registry::{
    DsnType, DATABASE_SETTING_NAME, DRIVER_KEY_PATH, DRIVER_SETTING_NAME, DS_LISTING_SUBPATH,
    ODBC_INI_SUBPATH,
};

verus! {

/// The separator of a path is one backslash.
pub proof fn lemma_separator()
    ensures
        PATH_SEPARATOR@ == seq!['\\'],
{
    reveal_strlit("\\");
    assert(PATH_SEPARATOR@ =~= seq!['\\']);
}

/// Two subkeys of one key that have one path have one name.
pub proof fn lemma_child_path_injective(parent: Seq<char>, a: Seq<char>, b: Seq<char>)
    requires
        child_path(parent, a) == child_path(parent, b),
    ensures
        a == b,
{
    lemma_separator();
    let n = parent.len() + 1;
    assert(child_path(parent, a).len() == n + a.len());
    assert(child_path(parent, b).len() == n + b.len());
    assert forall|i: int| 0 <= i < a.len() implies a[i] == b[i] by {
        assert(child_path(parent, a)[n + i] == a[i]);
        assert(child_path(parent, b)[n + i] == b[i]);
    }
    assert(a =~= b);
}

/// The path of a subkey is longer than that of its key, and begins with
/// it.
pub proof fn lemma_child_path_extends(parent: Seq<char>, name: Seq<char>)
    ensures
        child_path(parent, name).len() == parent.len() + 1 + name.len(),
        child_path(parent, name) != parent,
        forall|i: int| 0 <= i < parent.len() ==> child_path(parent, name)[i] == parent[i],
{
    lemma_separator();
}

/// The registration of the driver is neither the key that holds the data
/// sources nor one of its subkeys.
pub proof fn lemma_driver_key_apart(name: Seq<char>)
    ensures
        DRIVER_KEY_PATH@ != ODBC_INI_SUBPATH@,
        DRIVER_KEY_PATH@ != child_path(ODBC_INI_SUBPATH@, name),
{
    reveal_strlit("SOFTWARE\\ODBC\\ODBCINST.INI\\DuckDB Driver");
    reveal_strlit("SOFTWARE\\ODBC\\ODBC.INI");
    lemma_child_path_extends(ODBC_INI_SUBPATH@, name);
    assert(DRIVER_KEY_PATH@[18] == 'I');
    assert(ODBC_INI_SUBPATH@[18] == '.');
    assert(child_path(ODBC_INI_SUBPATH@, name)[18] == '.');
}

/// The keys that the operations on a data source touch are apart: the
/// registration of the driver, the key that holds the data sources of a
/// scope, and its subkeys, which are as many as their names.
pub proof fn lemma_keys_apart(dsn_type: DsnType, name: Seq<char>, other: Seq<char>)
    ensures
        driver_key() != odbc_ini_key(dsn_type),
        driver_key() != dsn_key(dsn_type, name),
        odbc_ini_key(dsn_type) != dsn_key(dsn_type, name),
        dsn_key(dsn_type, name) == dsn_key(dsn_type, other) <==> name == other,
        listing_key(dsn_type) == dsn_key(dsn_type, DS_LISTING_SUBPATH@),
{
    lemma_driver_key_apart(name);
    lemma_child_path_extends(ODBC_INI_SUBPATH@, name);
    if dsn_key(dsn_type, name) == dsn_key(dsn_type, other) {
        lemma_child_path_injective(ODBC_INI_SUBPATH@, name, other);
    }
}

/// The two values that every data source of the driver has are named
/// apart.
pub proof fn lemma_setting_names_apart()
    ensures
        DRIVER_SETTING_NAME@ != DATABASE_SETTING_NAME@,
{
    reveal_strlit("Driver");
    reveal_strlit("database");
    assert(DRIVER_SETTING_NAME@.len() == 6);
    assert(DATABASE_SETTING_NAME@.len() == 8);
}

} // verus!
