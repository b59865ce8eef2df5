//! What the discovery of the data sources finds when the registry answers
//! as its model does, and how that goes with making and deleting a data
//! source.

use vstd::prelude::*;

use crate::common::exchange::{dsn_key, listing_key, odbc_ini_key, OperationView};
use crate::common::protocol::child_path;
use crate::common::registry::{
    entry_names, scope_root, DsnRecord, DsnType, Root, SettingEntry, DATABASE_SETTING_NAME,
    DRIVER_SETTING_NAME, ODBC_INI_SUBPATH,
};
use crate::common::store_laws::{
    created, deleted, driver_registered, lemma_create_dsn, lemma_created, lemma_created_listable,
    lemma_delete_dsn, lemma_deleted, lemma_deleted_listable, lemma_driver_path,
    lemma_list_subkeys, lemma_list_values, lemma_without_entry, lemma_without_name, listable,
    registered_path,
};
use crate::common::store_model::{entry_value, has_entry, has_name, perform, StoreModel};
use crate::common::text::{first_position, lemma_first_position};
use crate::load_dsns_dialog::dialog::{
    candidates_of, discovery_after, discovery_start, found_with, names_driver, pending_operation,
    CandidateView, DiscoveryAdvanceView, DiscoveryView, Phase,
};

verus! {

/// How far a discovery is from listing values: the number of its phases
/// that come before.
pub open spec fn phases_ahead(phase: Phase) -> nat {
    match phase {
        Phase::Driver => 3,
        Phase::SystemNames => 2,
        Phase::UserNames => 1,
        Phase::Values => 0,
    }
}

/// What a discovery comes to from a state on, when the registry answers
/// the requests of its operations: its result, and the registry as it is
/// left.
pub open spec fn discover_from(state: DiscoveryView, store: StoreModel, fault: Seq<char>) -> (
    Result<Seq<DsnRecord>, Seq<char>>,
    StoreModel,
)
    decreases phases_ahead(state.phase), state.candidates.len() - state.next,
{
    let done = perform(pending_operation(state), store, fault);
    match discovery_after(state, done.0) {
        DiscoveryAdvanceView::Finished(result) => (result, done.1),
        DiscoveryAdvanceView::Continue(next) => discover_from(next, done.1, fault),
    }
}

/// What a discovery comes to when the registry answers the requests of
/// its operations.
pub open spec fn discover(store: StoreModel, fault: Seq<char>) -> (
    Result<Seq<DsnRecord>, Seq<char>>,
    StoreModel,
) {
    discover_from(discovery_start(), store, fault)
}

/// The record of a candidate: its name, its scope and the values of its
/// key.
pub open spec fn record_of(store: StoreModel, candidate: CandidateView) -> DsnRecord {
    DsnRecord {
        name: candidate.name,
        scope: candidate.scope,
        settings: store.keys[dsn_key(candidate.scope, candidate.name)].values,
    }
}

/// The records of the candidates whose values name the driver, in the
/// order of the candidates.
pub open spec fn records_of(store: StoreModel, candidates: Seq<CandidateView>, driver_path: Seq<char>) -> Seq<
    DsnRecord,
>
    decreases candidates.len(),
{
    if candidates.len() == 0 {
        Seq::empty()
    } else if names_driver(record_of(store, candidates.last()).settings, driver_path) {
        records_of(store, candidates.drop_last(), driver_path).push(record_of(store, candidates.last()))
    } else {
        records_of(store, candidates.drop_last(), driver_path)
    }
}

/// The data sources of the driver in one scope: the subkeys of the scope
/// whose values name the driver as it is registered, in the order in
/// which the scope lists them.
pub open spec fn driver_dsns(store: StoreModel, dsn_type: DsnType) -> Seq<DsnRecord> {
    records_of(
        store,
        candidates_of(dsn_type, store.keys[odbc_ini_key(dsn_type)].subkeys),
        registered_path(store),
    )
}

/// The records of two runs of candidates are those of the first and then
/// those of the second.
pub proof fn lemma_records_of_concat(
    store: StoreModel,
    a: Seq<CandidateView>,
    b: Seq<CandidateView>,
    driver_path: Seq<char>,
)
    ensures
        records_of(store, a + b, driver_path) == records_of(store, a, driver_path) + records_of(
            store,
            b,
            driver_path,
        ),
    decreases b.len(),
{
    if b.len() == 0 {
        assert(a + b =~= a);
        assert(records_of(store, a, driver_path) + records_of(store, b, driver_path) =~= records_of(
            store,
            a,
            driver_path,
        ));
    } else {
        assert((a + b).drop_last() =~= a + b.drop_last());
        assert((a + b).last() == b.last());
        lemma_records_of_concat(store, a, b.drop_last(), driver_path);
        assert(records_of(store, a + b, driver_path) =~= records_of(store, a, driver_path) + records_of(
            store,
            b,
            driver_path,
        ));
    }
}

/// Every record is that of one of the candidates, whose values name the
/// driver.
pub proof fn lemma_records_are_candidates(
    store: StoreModel,
    candidates: Seq<CandidateView>,
    driver_path: Seq<char>,
    i: int,
)
    requires
        0 <= i < records_of(store, candidates, driver_path).len(),
    ensures
        exists|k: int|
            0 <= k < candidates.len() && records_of(store, candidates, driver_path)[i] == record_of(
                store,
                #[trigger] candidates[k],
            ) && names_driver(record_of(store, candidates[k]).settings, driver_path),
    decreases candidates.len(),
{
    let rest = records_of(store, candidates.drop_last(), driver_path);
    if i < rest.len() {
        lemma_records_are_candidates(store, candidates.drop_last(), driver_path, i);
        let k = choose|k: int|
            0 <= k < candidates.drop_last().len() && rest[i] == record_of(
                store,
                #[trigger] candidates.drop_last()[k],
            ) && names_driver(record_of(store, candidates.drop_last()[k]).settings, driver_path);
        assert(candidates[k] == candidates.drop_last()[k]);
    } else {
        assert(candidates[candidates.len() - 1] == candidates.last());
    }
}

/// Every candidate whose values name the driver has its record among the
/// records.
pub proof fn lemma_candidate_has_record(
    store: StoreModel,
    candidates: Seq<CandidateView>,
    driver_path: Seq<char>,
    k: int,
)
    requires
        0 <= k < candidates.len(),
        names_driver(record_of(store, candidates[k]).settings, driver_path),
    ensures
        exists|i: int|
            0 <= i < records_of(store, candidates, driver_path).len() && #[trigger] records_of(
                store,
                candidates,
                driver_path,
            )[i] == record_of(store, candidates[k]),
    decreases candidates.len(),
{
    let all = records_of(store, candidates, driver_path);
    let rest = records_of(store, candidates.drop_last(), driver_path);
    if k < candidates.len() - 1 {
        assert(candidates[k] == candidates.drop_last()[k]);
        lemma_candidate_has_record(store, candidates.drop_last(), driver_path, k);
        let i = choose|i: int| 0 <= i < rest.len() && #[trigger] rest[i] == record_of(store, candidates[k]);
        assert(all[i] == rest[i]);
    } else {
        assert(all[all.len() - 1] == record_of(store, candidates[k]));
    }
}

/// No two records are of one name and scope where no two candidates
/// are.
pub proof fn lemma_records_apart(
    store: StoreModel,
    candidates: Seq<CandidateView>,
    driver_path: Seq<char>,
    i: int,
    j: int,
)
    requires
        candidates.no_duplicates(),
        0 <= i < j < records_of(store, candidates, driver_path).len(),
    ensures
        records_of(store, candidates, driver_path)[i].name != records_of(
            store,
            candidates,
            driver_path,
        )[j].name || records_of(store, candidates, driver_path)[i].scope != records_of(
            store,
            candidates,
            driver_path,
        )[j].scope,
    decreases candidates.len(),
{
    let all = records_of(store, candidates, driver_path);
    let rest = records_of(store, candidates.drop_last(), driver_path);
    assert forall|a: int, b: int|
        0 <= a < candidates.drop_last().len() && 0 <= b < candidates.drop_last().len() && a
            != b implies candidates.drop_last()[a] != candidates.drop_last()[b] by {
        assert(candidates[a] != candidates[b]);
    }
    if j < rest.len() {
        lemma_records_apart(store, candidates.drop_last(), driver_path, i, j);
    } else {
        lemma_records_are_candidates(store, candidates.drop_last(), driver_path, i);
        let k = choose|k: int|
            0 <= k < candidates.drop_last().len() && rest[i] == record_of(
                store,
                #[trigger] candidates.drop_last()[k],
            ) && names_driver(record_of(store, candidates.drop_last()[k]).settings, driver_path);
        assert(candidates[k] != candidates[candidates.len() - 1]);
        assert(all[j] == record_of(store, candidates.last()));
    }
}

/// From the listing of values on, a discovery yields the records of all
/// its candidates, where those whose values it has listed yielded theirs
/// and the others have keys; and it leaves the registry as it is.
pub proof fn lemma_discover_values(state: DiscoveryView, store: StoreModel, fault: Seq<char>)
    requires
        state.phase == Phase::Values,
        state.next < state.candidates.len(),
        state.found == records_of(store, state.candidates.take(state.next as int), state.driver_path),
        forall|k: int|
            state.next <= k < state.candidates.len() ==> store.has_key(
                dsn_key((#[trigger] state.candidates[k]).scope, state.candidates[k].name),
            ),
    ensures
        discover_from(state, store, fault) == (
            Ok::<Seq<DsnRecord>, Seq<char>>(records_of(store, state.candidates, state.driver_path)),
            store,
        ),
    decreases state.candidates.len() - state.next,
{
    let candidate = state.candidates[state.next as int];
    let key = dsn_key(candidate.scope, candidate.name);
    assert(store.has_key(key));
    lemma_list_values(store, scope_root(candidate.scope), child_path(ODBC_INI_SUBPATH@, candidate.name), fault);
    let values = store.keys[key].values;
    let upto = state.candidates.take(state.next as int + 1);
    assert(upto.drop_last() =~= state.candidates.take(state.next as int));
    assert(upto.last() == candidate);
    assert(found_with(state, values) == records_of(store, upto, state.driver_path));
    if state.next + 1 < state.candidates.len() {
        let next = DiscoveryView { next: state.next + 1, found: found_with(state, values), ..state };
        lemma_discover_values(next, store, fault);
    } else {
        assert(upto =~= state.candidates);
    }
}

/// Where the driver is registered and the data sources of both scopes
/// can be listed, a discovery yields the data sources of the driver: those
/// of the machine first and then those of the current user, each scope in
/// the order of its listing. It leaves the registry as it is.
pub proof fn lemma_discover(store: StoreModel, fault: Seq<char>)
    requires
        driver_registered(store, registered_path(store)),
        listable(store, DsnType::SYSTEM),
        listable(store, DsnType::USER),
    ensures
        discover(store, fault) == (
            Ok::<Seq<DsnRecord>, Seq<char>>(
                driver_dsns(store, DsnType::SYSTEM) + driver_dsns(store, DsnType::USER),
            ),
            store,
        ),
{
    reveal_with_fuel(discover_from, 4);
    lemma_driver_path(store, fault);
    lemma_list_subkeys(store, Root::HKLM, ODBC_INI_SUBPATH@, fault);
    lemma_list_subkeys(store, Root::HKCU, ODBC_INI_SUBPATH@, fault);
    let path = registered_path(store);
    let system = store.keys[odbc_ini_key(DsnType::SYSTEM)].subkeys;
    let user = store.keys[odbc_ini_key(DsnType::USER)].subkeys;
    let candidates = candidates_of(DsnType::SYSTEM, system) + candidates_of(DsnType::USER, user);
    lemma_records_of_concat(
        store,
        candidates_of(DsnType::SYSTEM, system),
        candidates_of(DsnType::USER, user),
        path,
    );
    let listed = DiscoveryView {
        phase: Phase::UserNames,
        driver_path: path,
        candidates: candidates_of(DsnType::SYSTEM, system),
        ..discovery_start()
    };
    if candidates.len() > 0 {
        let state = DiscoveryView { phase: Phase::Values, candidates, next: 0, ..listed };
        assert(state.candidates.take(0) =~= Seq::<CandidateView>::empty());
        assert forall|k: int| 0 <= k < candidates.len() implies store.has_key(
            dsn_key((#[trigger] candidates[k]).scope, candidates[k].name),
        ) by {
            if k < system.len() {
                assert(candidates[k] == CandidateView { scope: DsnType::SYSTEM, name: system[k] });
            } else {
                assert(candidates[k] == CandidateView {
                    scope: DsnType::USER,
                    name: user[k - system.len()],
                });
            }
        }
        lemma_discover_values(state, store, fault);
    } else {
        assert(candidates =~= Seq::<CandidateView>::empty());
    }
}

/// Where the driver is not registered, a discovery fails.
pub proof fn lemma_discover_unregistered(store: StoreModel, fault: Seq<char>)
    requires
        !driver_registered(store, registered_path(store)),
    ensures
        discover(store, fault).0 is Err,
{
    reveal_with_fuel(discover_from, 2);
    lemma_driver_path(store, fault);
}

/// The subkeys of both scopes as candidates: those of the machine, then
/// those of the current user.
pub open spec fn all_candidates(store: StoreModel) -> Seq<CandidateView> {
    candidates_of(DsnType::SYSTEM, store.keys[odbc_ini_key(DsnType::SYSTEM)].subkeys) + candidates_of(
        DsnType::USER,
        store.keys[odbc_ini_key(DsnType::USER)].subkeys,
    )
}

/// Each candidate is a subkey of its scope, and no two candidates are of
/// one name and scope, where no scope names a subkey twice.
pub proof fn lemma_all_candidates(store: StoreModel)
    requires
        store.keys[odbc_ini_key(DsnType::SYSTEM)].subkeys.no_duplicates(),
        store.keys[odbc_ini_key(DsnType::USER)].subkeys.no_duplicates(),
    ensures
        all_candidates(store).no_duplicates(),
        forall|k: int|
            0 <= k < all_candidates(store).len() ==> store.keys[odbc_ini_key(
                (#[trigger] all_candidates(store)[k]).scope,
            )].subkeys.contains(all_candidates(store)[k].name),
        records_of(store, all_candidates(store), registered_path(store)) == driver_dsns(
            store,
            DsnType::SYSTEM,
        ) + driver_dsns(store, DsnType::USER),
{
    let system = store.keys[odbc_ini_key(DsnType::SYSTEM)].subkeys;
    let user = store.keys[odbc_ini_key(DsnType::USER)].subkeys;
    let all = all_candidates(store);
    assert forall|k: int| 0 <= k < all.len() implies store.keys[odbc_ini_key((#[trigger] all[k]).scope)].subkeys.contains(
        all[k].name,
    ) by {
        if k < system.len() {
            assert(all[k] == CandidateView { scope: DsnType::SYSTEM, name: system[k] });
        } else {
            assert(all[k] == CandidateView { scope: DsnType::USER, name: user[k - system.len()] });
        }
    }
    assert forall|a: int, b: int| 0 <= a < all.len() && 0 <= b < all.len() && a != b implies all[a]
        != all[b] by {
        let name_a = if a < system.len() { system[a] } else { user[a - system.len()] };
        let name_b = if b < system.len() { system[b] } else { user[b - system.len()] };
        assert(all[a].name == name_a);
        assert(all[b].name == name_b);
        assert(all[a].scope == if a < system.len() { DsnType::SYSTEM } else { DsnType::USER });
        assert(all[b].scope == if b < system.len() { DsnType::SYSTEM } else { DsnType::USER });
    }
    lemma_records_of_concat(
        store,
        candidates_of(DsnType::SYSTEM, system),
        candidates_of(DsnType::USER, user),
        registered_path(store),
    );
}

/// Whether a record is that of the data source of the given scope and
/// name.
pub open spec fn is_record_of(record: DsnRecord, dsn_type: DsnType, name: Seq<char>) -> bool {
    record.scope == dsn_type && record.name == name
}

/// Whether the values hold the given text under the given name.
pub open spec fn holds_value(settings: Seq<SettingEntry>, name: Seq<char>, value: Seq<char>) -> bool {
    has_entry(settings, name) && entry_value(settings, name) == value
}

/// Values that hold the path of the driver under the name `Driver` name
/// the driver.
pub proof fn lemma_holds_driver(settings: Seq<SettingEntry>, driver_path: Seq<char>)
    requires
        holds_value(settings, DRIVER_SETTING_NAME@, driver_path),
    ensures
        names_driver(settings, driver_path),
{
    lemma_first_position(entry_names(settings), DRIVER_SETTING_NAME@);
    let at = first_position(entry_names(settings), DRIVER_SETTING_NAME@);
    assert(entry_names(settings)[at] == settings[at].name);
    assert(settings[at].name == DRIVER_SETTING_NAME@ && settings[at].value == driver_path);
}

/// The name of a data source is its own within its scope: a discovery
/// yields no two records of one name and scope.
pub proof fn law_discovered_names_unique(store: StoreModel, fault: Seq<char>, i: int, j: int)
    requires
        listable(store, DsnType::SYSTEM),
        listable(store, DsnType::USER),
        discover(store, fault).0 is Ok,
        0 <= i < j < discover(store, fault).0->Ok_0.len(),
    ensures
        discover(store, fault).0->Ok_0[i].name != discover(store, fault).0->Ok_0[j].name || discover(
            store,
            fault,
        ).0->Ok_0[i].scope != discover(store, fault).0->Ok_0[j].scope,
{
    if driver_registered(store, registered_path(store)) {
        lemma_discover(store, fault);
        lemma_all_candidates(store);
        lemma_records_apart(store, all_candidates(store), registered_path(store), i, j);
    } else {
        lemma_discover_unregistered(store, fault);
    }
}

/// Every record that a discovery yields is that of a subkey of its
/// scope, with the values of that subkey, and names the driver as it is
/// registered.
pub proof fn law_discovered_records(store: StoreModel, fault: Seq<char>, i: int)
    requires
        listable(store, DsnType::SYSTEM),
        listable(store, DsnType::USER),
        discover(store, fault).0 is Ok,
        0 <= i < discover(store, fault).0->Ok_0.len(),
    ensures
        ({
            let record = discover(store, fault).0->Ok_0[i];
            &&& store.keys[odbc_ini_key(record.scope)].subkeys.contains(record.name)
            &&& record.settings == store.keys[dsn_key(record.scope, record.name)].values
            &&& names_driver(record.settings, registered_path(store))
        }),
{
    if driver_registered(store, registered_path(store)) {
        lemma_discover(store, fault);
        lemma_all_candidates(store);
        lemma_records_are_candidates(store, all_candidates(store), registered_path(store), i);
    } else {
        lemma_discover_unregistered(store, fault);
    }
}

/// A data source that was made is found by the discovery that follows:
/// the discovery yields one record of its name and scope, and no
/// second one, and the values of that record hold the path of the driver
/// under the name `Driver` and the database under the name `database`.
pub proof fn law_create_then_discover(
    store: StoreModel,
    dsn_type: DsnType,
    name: Seq<char>,
    database: Seq<char>,
    fault: Seq<char>,
)
    requires
        listable(store, DsnType::SYSTEM),
        listable(store, DsnType::USER),
        perform(OperationView::CreateDsn { dsn_type, name, database }, store, fault).0 is Ok,
    ensures
        ({
            let after = perform(OperationView::CreateDsn { dsn_type, name, database }, store, fault).1;
            let found = discover(after, fault);
            &&& found.0 is Ok
            &&& found.1 == after
            &&& exists|i: int|
                0 <= i < found.0->Ok_0.len() && is_record_of(#[trigger] found.0->Ok_0[i], dsn_type, name)
                    && holds_value(found.0->Ok_0[i].settings, DRIVER_SETTING_NAME@, registered_path(store))
                    && holds_value(found.0->Ok_0[i].settings, DATABASE_SETTING_NAME@, database)
            &&& forall|i: int, j: int|
                0 <= i < found.0->Ok_0.len() && 0 <= j < found.0->Ok_0.len() && is_record_of(
                    #[trigger] found.0->Ok_0[i],
                    dsn_type,
                    name,
                ) && is_record_of(#[trigger] found.0->Ok_0[j], dsn_type, name) ==> i == j
        }),
{
    lemma_create_dsn(store, dsn_type, name, database, fault);
    let after = created(store, dsn_type, name, database);
    let path = registered_path(store);
    lemma_created(store, dsn_type, name, database, dsn_type, name);
    lemma_created_listable(store, dsn_type, name, database, DsnType::SYSTEM);
    lemma_created_listable(store, dsn_type, name, database, DsnType::USER);
    lemma_discover(after, fault);
    lemma_all_candidates(after);
    let found = discover(after, fault).0->Ok_0;
    let all = all_candidates(after);
    let system = after.keys[odbc_ini_key(DsnType::SYSTEM)].subkeys;
    let user = after.keys[odbc_ini_key(DsnType::USER)].subkeys;
    let k = if dsn_type == DsnType::SYSTEM {
        system.len() - 1
    } else {
        system.len() + user.len() - 1
    };
    assert(all[k] == CandidateView { scope: dsn_type, name });
    let values = after.keys[dsn_key(dsn_type, name)].values;
    lemma_holds_driver(values, path);
    lemma_candidate_has_record(after, all, path, k);
    let at = choose|i: int|
        0 <= i < records_of(after, all, path).len() && #[trigger] records_of(after, all, path)[i]
            == record_of(after, all[k]);
    assert(is_record_of(found[at], dsn_type, name));
    assert forall|i: int, j: int|
        0 <= i < found.len() && 0 <= j < found.len() && is_record_of(#[trigger] found[i], dsn_type, name)
            && is_record_of(#[trigger] found[j], dsn_type, name) implies i == j by {
        if i < j {
            law_discovered_names_unique(after, fault, i, j);
        } else if j < i {
            law_discovered_names_unique(after, fault, j, i);
        }
    }
}

/// A data source that was deleted is gone: the listing of its scope has
/// no entry of its name, and the discovery that follows yields no record
/// of its name and scope.
pub proof fn law_delete_then_discover(store: StoreModel, dsn_type: DsnType, name: Seq<char>, fault: Seq<char>)
    requires
        listable(store, DsnType::SYSTEM),
        listable(store, DsnType::USER),
        store.has_key(listing_key(dsn_type)) ==> entry_names(
            store.keys[listing_key(dsn_type)].values,
        ).no_duplicates(),
        perform(OperationView::DeleteDsn { dsn_type, name }, store, fault).0 is Ok,
    ensures
        ({
            let after = perform(OperationView::DeleteDsn { dsn_type, name }, store, fault).1;
            let found = discover(after, fault);
            &&& !after.has_key(dsn_key(dsn_type, name))
            &&& !has_name(after.keys[odbc_ini_key(dsn_type)].subkeys, name)
            &&& !has_entry(after.keys[listing_key(dsn_type)].values, name)
            &&& found.0 is Ok ==> forall|i: int|
                0 <= i < found.0->Ok_0.len() ==> !is_record_of(#[trigger] found.0->Ok_0[i], dsn_type, name)
        }),
{
    lemma_delete_dsn(store, dsn_type, name, fault);
    let after = deleted(store, dsn_type, name);
    lemma_deleted(store, dsn_type, name, dsn_type, name);
    lemma_deleted_listable(store, dsn_type, name, DsnType::SYSTEM);
    lemma_deleted_listable(store, dsn_type, name, DsnType::USER);
    lemma_without_entry(store.keys[listing_key(dsn_type)].values, name);
    lemma_without_name(store.keys[odbc_ini_key(dsn_type)].subkeys, name);
    let found = discover(after, fault);
    if found.0 is Ok {
        assert forall|i: int| 0 <= i < found.0->Ok_0.len() implies !is_record_of(
            #[trigger] found.0->Ok_0[i],
            dsn_type,
            name,
        ) by {
            law_discovered_records(after, fault, i);
            let record = found.0->Ok_0[i];
            if record.scope == dsn_type {
                let names = after.keys[odbc_ini_key(dsn_type)].subkeys;
                let k = choose|k: int| 0 <= k < names.len() && names[k] == record.name;
                assert(names[k] != name);
            }
        }
    }
}

} // verus!
