//! The settings table: the catalog merged with the values of a data
//! source, the filter on the names, and the rows that pass it.

use vstd::prelude::*;
use vstd::string::*;

use crate::common::all_settings::catalog;
use crate::common::duckdb_setting::{DuckDbSetting, SettingRow};
use crate::common::registry::{
    RegistrySetting, SettingEntry, DATABASE_SETTING_DESCRIPTION, DATABASE_SETTING_NAME,
    DRIVER_SETTING_NAME, SESSION_INIT_SQL_FILE_SETTING_DESCRIPTION,
    SESSION_INIT_SQL_FILE_SETTING_NAME,
};
use crate::common::text::{
    first_position, in_order, lemma_first_position_is, lemma_text_le_antisymmetric, lemma_text_le_reflexive, lemma_text_le_total, lemma_text_le_transitive,
    lowercase_form, same_text, starts_with, texts_in_order, to_lowercase, wildcard_covers,
    wildcard_matches,
};

verus! {

/// Whether a setting of the given name passes the filter: every name
/// passes the empty filter; otherwise the name begins with the filter, or
/// the filter covers it as a wildcard pattern.
pub open spec fn passes_filter(filter: Seq<char>, name: Seq<char>) -> bool {
    filter.len() == 0 || filter.is_prefix_of(name) || wildcard_covers(filter, name)
}

/// Whether a setting of the given name passes the filter.
pub fn setting_matches_filters(filter: &str, name: &str) -> (shown: bool)
    ensures
        shown == passes_filter(filter@, name@),
{
    if filter.is_empty() {
        return true;
    }
    if starts_with(name, filter) {
        return true;
    }
    wildcard_matches(filter, name)
}

/// The positions `0, 1, ..` below `n`.
pub open spec fn positions(n: nat) -> Seq<usize> {
    Seq::new(n, |i: int| i as usize)
}

/// The positions of the rows whose names pass the filter, in the order of
/// the rows.
pub open spec fn shown_positions(rows: Seq<SettingRow>, filter: Seq<char>) -> Seq<usize> {
    positions(rows.len()).filter(|i: usize| i < rows.len() && passes_filter(filter, rows[i as int].name))
}

/// The rows that the table shows under the given filter: their positions
/// among the settings, in order.
pub fn shown_rows(settings: &Vec<DuckDbSetting>, filter: &str) -> (shown: Vec<usize>)
    ensures
        shown@ == shown_positions(settings.deep_view(), filter@),
{
    let ghost rows = settings.deep_view();
    let ghost pred = |i: usize| i < rows.len() && passes_filter(filter@, rows[i as int].name);
    let mut shown: Vec<usize> = Vec::new();
    let mut i: usize = 0;
    proof {
        reveal(Seq::filter);
        assert(positions(0) =~= Seq::empty());
    }
    while i < settings.len()
        invariant
            i <= settings.len(),
            rows == settings.deep_view(),
            pred == (|i: usize| i < rows.len() && passes_filter(filter@, rows[i as int].name)),
            shown@ == positions(i as nat).filter(pred),
        decreases settings.len() - i,
    {
        let passes = setting_matches_filters(filter, settings[i].name.as_str());
        proof {
            reveal(Seq::filter);
            assert(positions((i + 1) as nat).drop_last() =~= positions(i as nat));
            assert(positions((i + 1) as nat).last() == i);
            assert(rows[i as int].name == settings@[i as int].name@);
        }
        if passes {
            shown.push(i);
        }
        i += 1;
    }
    shown
}

/// The names of the rows.
pub open spec fn row_names(rows: Seq<SettingRow>) -> Seq<Seq<char>> {
    rows.map_values(|row: SettingRow| row.name)
}

/// The position of the first setting of the given name, if there is one.
pub fn find_setting(settings: &Vec<DuckDbSetting>, name: &str) -> (found: Option<usize>)
    ensures
        match found {
            Some(at) => at < settings.len() && at == first_position(row_names(settings.deep_view()), name@),
            None => first_position(row_names(settings.deep_view()), name@) == settings.len(),
        },
{
    let ghost names = row_names(settings.deep_view());
    let mut i: usize = 0;
    while i < settings.len()
        invariant
            i <= settings.len(),
            names == row_names(settings.deep_view()),
            forall|k: int| 0 <= k < i ==> names[k] != name@,
        decreases settings.len() - i,
    {
        if same_text(settings[i].name.as_str(), name) {
            proof {
                assert(names[i as int] == settings@[i as int].name@);
                lemma_first_position_is(names, name@, i as int);
            }
            return Some(i);
        }
        assert(names[i as int] == settings@[i as int].name@);
        i += 1;
    }
    proof {
        lemma_first_position_is(names, name@, settings.len() as int);
    }
    None
}

/// What the settings table says of a value that is stored with a data
/// source and is no setting of the engine.
pub open spec fn non_engine_description(name: Seq<char>) -> Seq<char> {
    if name == DATABASE_SETTING_NAME@ {
        DATABASE_SETTING_DESCRIPTION@
    } else if name == SESSION_INIT_SQL_FILE_SETTING_NAME@ {
        SESSION_INIT_SQL_FILE_SETTING_DESCRIPTION@
    } else {
        Seq::empty()
    }
}

/// What the settings table says of a value that is stored with a data
/// source and is no setting of the engine.
pub fn non_engine_setting_description(name: &str) -> (description: String)
    ensures
        description@ == non_engine_description(name@),
{
    if same_text(DATABASE_SETTING_NAME, name) {
        DATABASE_SETTING_DESCRIPTION.to_string()
    } else if same_text(SESSION_INIT_SQL_FILE_SETTING_NAME, name) {
        SESSION_INIT_SQL_FILE_SETTING_DESCRIPTION.to_string()
    } else {
        String::new()
    }
}

/// The row of a stored value that the catalog does not know.
pub open spec fn stored_row(entry: SettingEntry) -> SettingRow {
    SettingRow {
        name: entry.name,
        dsn_value: entry.value,
        default_value: Seq::empty(),
        description: non_engine_description(entry.name),
        input_type: Seq::empty(),
        scope: Seq::empty(),
    }
}

/// The rows with one stored value merged in: the value goes to the first
/// row of its name; where there is none, it gets a row of its own at the
/// end, unless it is the path of the driver, which is not shown.
pub open spec fn merge_entry(rows: Seq<SettingRow>, entry: SettingEntry) -> Seq<SettingRow> {
    let at = first_position(row_names(rows), entry.name);
    if at < rows.len() {
        rows.update(at, SettingRow { dsn_value: entry.value, ..rows[at] })
    } else if entry.name != DRIVER_SETTING_NAME@ {
        rows.push(stored_row(entry))
    } else {
        rows
    }
}

/// The rows with the stored values merged in, one after the other.
pub open spec fn merge_entries(rows: Seq<SettingRow>, entries: Seq<SettingEntry>) -> Seq<SettingRow>
    decreases entries.len(),
{
    if entries.len() == 0 {
        rows
    } else {
        merge_entry(merge_entries(rows, entries.drop_last()), entries.last())
    }
}

/// Merges the values stored with a data source into the rows.
pub fn merge_dsn_settings(settings: &mut Vec<DuckDbSetting>, stored: &Vec<RegistrySetting>)
    ensures
        final(settings).deep_view() == merge_entries(old(settings).deep_view(), stored.deep_view()),
{
    let ghost rows = settings.deep_view();
    let ghost entries = stored.deep_view();
    let mut i: usize = 0;
    assert(entries.take(0) =~= Seq::empty());
    while i < stored.len()
        invariant
            i <= stored.len(),
            entries == stored.deep_view(),
            settings.deep_view() == merge_entries(rows, entries.take(i as int)),
        decreases stored.len() - i,
    {
        let ghost before = settings.deep_view();
        let entry = &stored[i];
        proof {
            assert(entries.take(i + 1).drop_last() =~= entries.take(i as int));
            assert(entries.take(i + 1).last() == entry@);
        }
        match find_setting(settings, entry.name.as_str()) {
            Some(at) => {
                let mut row = settings[at].clone();
                row.dsn_value = entry.value.clone();
                settings.set(at, row);
                assert(settings.deep_view() =~= merge_entry(before, entry@));
            },
            None => {
                if !same_text(DRIVER_SETTING_NAME, entry.name.as_str()) {
                    let row = DuckDbSetting {
                        name: entry.name.clone(),
                        dsn_value: entry.value.clone(),
                        default_value: String::new(),
                        description: non_engine_setting_description(entry.name.as_str()),
                        input_type: String::new(),
                        scope: String::new(),
                    };
                    settings.push(row);
                    assert(settings.deep_view() =~= merge_entry(before, entry@));
                }
            },
        }
        i += 1;
    }
    assert(entries.take(stored.len() as int) =~= entries);
}

/// The text of a row in one of the columns by which the table is sorted:
/// the name, the value of the data source, or the default value.
pub open spec fn sort_text(row: SettingRow, col_idx: usize) -> Seq<char> {
    if col_idx == 0 {
        row.name
    } else if col_idx == 1 {
        row.dsn_value
    } else {
        row.default_value
    }
}

/// The key by which a row is sorted: the lowercase form of its text in
/// the column.
pub open spec fn sort_key(row: SettingRow, col_idx: usize) -> Seq<char> {
    lowercase_form(sort_text(row, col_idx))
}

/// Whether row `a` may stand before row `b`.
pub open spec fn rows_in_order(a: SettingRow, b: SettingRow, col_idx: usize, desc: bool) -> bool {
    texts_in_order(sort_key(a, col_idx), sort_key(b, col_idx), desc)
}

/// Whether every row may stand before all the rows behind it.
pub open spec fn rows_sorted(rows: Seq<SettingRow>, col_idx: usize, desc: bool) -> bool {
    forall|i: int, j: int|
        0 <= i < j < rows.len() ==> rows_in_order(#[trigger] rows[i], #[trigger] rows[j], col_idx, desc)
}

/// The rows that have the given key, in their order.
pub open spec fn rows_with_key(rows: Seq<SettingRow>, col_idx: usize, key: Seq<char>) -> Seq<SettingRow> {
    rows.filter(|row: SettingRow| sort_key(row, col_idx) == key)
}

/// Whether `sorted` holds the rows of `rows` in the order asked for, the
/// rows of one key in the order that they had in `rows`.
pub open spec fn is_stable_sort(
    sorted: Seq<SettingRow>,
    rows: Seq<SettingRow>,
    col_idx: usize,
    desc: bool,
) -> bool {
    &&& sorted.len() == rows.len()
    &&& rows_sorted(sorted, col_idx, desc)
    &&& forall|key: Seq<char>| #[trigger]
        rows_with_key(sorted, col_idx, key) == rows_with_key(rows, col_idx, key)
}

/// The rows of a key among two runs of rows are those of the first run
/// and then those of the second.
proof fn lemma_rows_with_key_concat(a: Seq<SettingRow>, b: Seq<SettingRow>, col_idx: usize, key: Seq<char>)
    ensures
        rows_with_key(a + b, col_idx, key) == rows_with_key(a, col_idx, key) + rows_with_key(
            b,
            col_idx,
            key,
        ),
{
    Seq::filter_distributes_over_add(a, b, |row: SettingRow| sort_key(row, col_idx) == key);
}

/// One row alone is the rows of its own key, and of no other.
proof fn lemma_rows_with_key_single(row: SettingRow, col_idx: usize, key: Seq<char>)
    ensures
        rows_with_key(seq![row], col_idx, key) == if sort_key(row, col_idx) == key {
            seq![row]
        } else {
            Seq::<SettingRow>::empty()
        },
{
    reveal_with_fuel(Seq::filter, 2);
    assert(seq![row].drop_last() =~= Seq::<SettingRow>::empty());
    assert(rows_with_key(seq![row], col_idx, key) =~= if sort_key(row, col_idx) == key {
        seq![row]
    } else {
        Seq::<SettingRow>::empty()
    });
}

/// Where no row has the key, the rows of the key are none.
proof fn lemma_rows_with_key_none(rows: Seq<SettingRow>, col_idx: usize, key: Seq<char>)
    requires
        forall|j: int| 0 <= j < rows.len() ==> sort_key(#[trigger] rows[j], col_idx) != key,
    ensures
        rows_with_key(rows, col_idx, key) == Seq::<SettingRow>::empty(),
    decreases rows.len(),
{
    reveal(Seq::filter);
    if rows.len() > 0 {
        assert forall|j: int| 0 <= j < rows.drop_last().len() implies sort_key(
            #[trigger] rows.drop_last()[j],
            col_idx,
        ) != key by {
            assert(rows.drop_last()[j] == rows[j]);
        }
        lemma_rows_with_key_none(rows.drop_last(), col_idx, key);
    }
}

/// The order of rows carries over a row in between.
proof fn lemma_rows_in_order_transitive(
    a: SettingRow,
    b: SettingRow,
    c: SettingRow,
    col_idx: usize,
    desc: bool,
)
    requires
        rows_in_order(a, b, col_idx, desc),
        rows_in_order(b, c, col_idx, desc),
    ensures
        rows_in_order(a, c, col_idx, desc),
{
    if desc {
        lemma_text_le_transitive(sort_key(c, col_idx), sort_key(b, col_idx), sort_key(a, col_idx));
    } else {
        lemma_text_le_transitive(sort_key(a, col_idx), sort_key(b, col_idx), sort_key(c, col_idx));
    }
}

/// Moving the row at `i` to `p`, behind the rows that may stand before it
/// and before the rows that may not, extends the sorted part by one row.
proof fn lemma_sorted_insert(
    cur: Seq<SettingRow>,
    rows: Seq<SettingRow>,
    i: int,
    p: int,
    col_idx: usize,
    desc: bool,
)
    requires
        0 <= p <= i < cur.len(),
        cur.len() == rows.len(),
        cur.skip(i) == rows.skip(i),
        is_stable_sort(cur.take(i), rows.take(i), col_idx, desc),
        p > 0 ==> rows_in_order(cur[p - 1], cur[i], col_idx, desc),
        forall|j: int| p <= j < i ==> !rows_in_order(#[trigger] cur[j], cur[i], col_idx, desc),
    ensures
        cur.remove(i).insert(p, cur[i]).skip(i + 1) == rows.skip(i + 1),
        is_stable_sort(cur.remove(i).insert(p, cur[i]).take(i + 1), rows.take(i + 1), col_idx, desc),
{
    let row = cur[i];
    let next = cur.remove(i).insert(p, row);
    let front = cur.take(p);
    let back = cur.subrange(p, i);
    let part = next.take(i + 1);
    assert(cur.skip(i)[0] == rows.skip(i)[0]);
    assert(row == rows[i]);
    assert(next.skip(i + 1) =~= rows.skip(i + 1)) by {
        assert forall|k: int| 0 <= k < next.skip(i + 1).len() implies #[trigger] next.skip(i + 1)[k]
            == rows.skip(i + 1)[k] by {
            assert(cur.skip(i)[k + 1] == rows.skip(i)[k + 1]);
        }
    }
    assert(part =~= front + seq![row] + back);
    assert(cur.take(i) =~= front + back);
    assert(rows.take(i + 1) =~= rows.take(i) + seq![row]);
    assert forall|a: int, b: int| 0 <= a < b < part.len() implies rows_in_order(
        #[trigger] part[a],
        #[trigger] part[b],
        col_idx,
        desc,
    ) by {
        if b < p {
            assert(part[a] == cur.take(i)[a] && part[b] == cur.take(i)[b]);
        } else if b == p {
            assert(part[a] == cur.take(i)[a]);
            if a < p - 1 {
                assert(cur[p - 1] == cur.take(i)[p - 1]);
                lemma_rows_in_order_transitive(part[a], cur[p - 1], row, col_idx, desc);
            }
        } else if a < p {
            assert(part[a] == cur.take(i)[a] && part[b] == cur.take(i)[b - 1]);
        } else if a == p {
            assert(part[b] == cur[b - 1]);
            lemma_text_le_total(sort_key(row, col_idx), sort_key(part[b], col_idx));
        } else {
            assert(part[a] == cur.take(i)[a - 1] && part[b] == cur.take(i)[b - 1]);
        }
    }
    assert forall|key: Seq<char>| #[trigger]
        rows_with_key(part, col_idx, key) == rows_with_key(rows.take(i + 1), col_idx, key) by {
        lemma_rows_with_key_concat(front + seq![row], back, col_idx, key);
        lemma_rows_with_key_concat(front, seq![row], col_idx, key);
        lemma_rows_with_key_concat(front, back, col_idx, key);
        lemma_rows_with_key_concat(rows.take(i), seq![row], col_idx, key);
        lemma_rows_with_key_single(row, col_idx, key);
        assert(rows_with_key(cur.take(i), col_idx, key) == rows_with_key(rows.take(i), col_idx, key));
        if sort_key(row, col_idx) == key {
            assert forall|j: int| 0 <= j < back.len() implies sort_key(#[trigger] back[j], col_idx)
                != key by {
                assert(back[j] == cur[p + j]);
                lemma_text_le_reflexive(key);
            }
            lemma_rows_with_key_none(back, col_idx, key);
            assert(rows_with_key(part, col_idx, key) =~= rows_with_key(rows.take(i + 1), col_idx, key));
        } else {
            assert(rows_with_key(part, col_idx, key) =~= rows_with_key(rows.take(i + 1), col_idx, key));
        }
    }
}

/// A row among the rows of a key stands among the rows, and has the
/// key.
proof fn lemma_rows_with_key_member(rows: Seq<SettingRow>, col_idx: usize, key: Seq<char>, i: int)
    requires
        0 <= i < rows_with_key(rows, col_idx, key).len(),
    ensures
        exists|j: int|
            0 <= j < rows.len() && #[trigger] rows[j] == rows_with_key(rows, col_idx, key)[i]
                && sort_key(rows[j], col_idx) == key,
    decreases rows.len(),
{
    reveal(Seq::filter);
    let rest = rows_with_key(rows.drop_last(), col_idx, key);
    if i < rest.len() {
        lemma_rows_with_key_member(rows.drop_last(), col_idx, key, i);
        let j = choose|j: int|
            0 <= j < rows.drop_last().len() && #[trigger] rows.drop_last()[j] == rest[i] && sort_key(
                rows.drop_last()[j],
                col_idx,
            ) == key;
        assert(rows[j] == rows.drop_last()[j]);
    } else {
        assert(rows[rows.len() - 1] == rows.last());
    }
}

/// Sorted rows end with a row of the same key as any other sorted rows
/// that hold the same rows of every key.
proof fn lemma_sorted_last_key(a: Seq<SettingRow>, b: Seq<SettingRow>, col_idx: usize, desc: bool)
    requires
        a.len() > 0,
        is_stable_sort(a, b, col_idx, desc),
        rows_sorted(b, col_idx, desc),
    ensures
        sort_key(a.last(), col_idx) == sort_key(b.last(), col_idx),
{
    reveal(Seq::filter);
    let ka = sort_key(a.last(), col_idx);
    let kb = sort_key(b.last(), col_idx);
    if ka != kb {
        let in_a = rows_with_key(a, col_idx, kb);
        let in_b = rows_with_key(b, col_idx, kb);
        assert(in_b == rows_with_key(b.drop_last(), col_idx, kb).push(b.last()));
        assert(in_a == rows_with_key(a.drop_last(), col_idx, kb));
        assert(in_a == in_b);
        lemma_rows_with_key_member(a.drop_last(), col_idx, kb, in_a.len() - 1);
        let q = choose|q: int|
            0 <= q < a.drop_last().len() && #[trigger] a.drop_last()[q] == in_a[in_a.len() - 1]
                && sort_key(a.drop_last()[q], col_idx) == kb;
        assert(a[q] == a.drop_last()[q]);
        assert(rows_in_order(a[q], a[a.len() - 1], col_idx, desc));
        let on_a = rows_with_key(a, col_idx, ka);
        let on_b = rows_with_key(b, col_idx, ka);
        assert(on_a == rows_with_key(a.drop_last(), col_idx, ka).push(a.last()));
        assert(on_b == rows_with_key(b.drop_last(), col_idx, ka));
        assert(on_a == on_b);
        lemma_rows_with_key_member(b.drop_last(), col_idx, ka, on_b.len() - 1);
        let p = choose|p: int|
            0 <= p < b.drop_last().len() && #[trigger] b.drop_last()[p] == on_b[on_b.len() - 1]
                && sort_key(b.drop_last()[p], col_idx) == ka;
        assert(b[p] == b.drop_last()[p]);
        assert(rows_in_order(b[p], b[b.len() - 1], col_idx, desc));
        if desc {
            lemma_text_le_antisymmetric(ka, kb);
        } else {
            lemma_text_le_antisymmetric(kb, ka);
        }
    }
}

/// The rows have one sorted order that keeps the rows of every key in
/// their order: two sequences that both are such an order of the same
/// rows are the same.
pub proof fn lemma_stable_sort_unique(
    a: Seq<SettingRow>,
    b: Seq<SettingRow>,
    rows: Seq<SettingRow>,
    col_idx: usize,
    desc: bool,
)
    requires
        is_stable_sort(a, rows, col_idx, desc),
        is_stable_sort(b, rows, col_idx, desc),
    ensures
        a == b,
    decreases a.len(),
{
    reveal(Seq::filter);
    if a.len() == 0 {
        assert(a =~= b);
    } else {
        assert forall|key: Seq<char>| #[trigger]
            rows_with_key(a, col_idx, key) == rows_with_key(b, col_idx, key) by {
            assert(rows_with_key(a, col_idx, key) == rows_with_key(rows, col_idx, key));
            assert(rows_with_key(b, col_idx, key) == rows_with_key(rows, col_idx, key));
        }
        lemma_sorted_last_key(a, b, col_idx, desc);
        let last_key = sort_key(a.last(), col_idx);
        assert(rows_with_key(a, col_idx, last_key) == rows_with_key(
            a.drop_last(),
            col_idx,
            last_key,
        ).push(a.last()));
        assert(rows_with_key(b, col_idx, last_key) == rows_with_key(
            b.drop_last(),
            col_idx,
            last_key,
        ).push(b.last()));
        assert(rows_with_key(a, col_idx, last_key) == rows_with_key(b, col_idx, last_key));
        assert(rows_with_key(a, col_idx, last_key).last() == a.last());
        assert(rows_with_key(b, col_idx, last_key).last() == b.last());
        assert(a.last() == b.last());
        let short_a = a.drop_last();
        let short_b = b.drop_last();
        assert forall|key: Seq<char>| #[trigger]
            rows_with_key(short_a, col_idx, key) == rows_with_key(short_b, col_idx, key) by {
            assert(rows_with_key(a, col_idx, key) == rows_with_key(b, col_idx, key));
            if key == last_key {
                assert(rows_with_key(short_a, col_idx, key) =~= rows_with_key(
                    a,
                    col_idx,
                    key,
                ).drop_last());
                assert(rows_with_key(short_b, col_idx, key) =~= rows_with_key(
                    b,
                    col_idx,
                    key,
                ).drop_last());
            }
        }
        assert forall|i: int, j: int| 0 <= i < j < short_a.len() implies rows_in_order(
            #[trigger] short_a[i],
            #[trigger] short_a[j],
            col_idx,
            desc,
        ) by {
            assert(short_a[i] == a[i] && short_a[j] == a[j]);
        }
        assert forall|i: int, j: int| 0 <= i < j < short_b.len() implies rows_in_order(
            #[trigger] short_b[i],
            #[trigger] short_b[j],
            col_idx,
            desc,
        ) by {
            assert(short_b[i] == b[i] && short_b[j] == b[j]);
        }
        lemma_stable_sort_unique(short_a, short_b, short_b, col_idx, desc);
        assert(a =~= short_a.push(a.last()));
        assert(b =~= short_b.push(b.last()));
    }
}

/// The text of a row in one of the columns by which the table is sorted.
fn column_text(row: &DuckDbSetting, col_idx: usize) -> (text: &str)
    ensures
        text@ == sort_text(row@, col_idx),
{
    if col_idx == 0 {
        row.name.as_str()
    } else if col_idx == 1 {
        row.dsn_value.as_str()
    } else {
        row.default_value.as_str()
    }
}

/// Whether row `a` may stand before row `b`: their texts in the column
/// are compared in lowercase.
pub fn setting_in_order(a: &DuckDbSetting, b: &DuckDbSetting, col_idx: usize, desc: bool) -> (ordered: bool)
    ensures
        ordered == rows_in_order(a@, b@, col_idx, desc),
{
    let key_a = to_lowercase(column_text(a, col_idx));
    let key_b = to_lowercase(column_text(b, col_idx));
    in_order(key_a.as_str(), key_b.as_str(), desc)
}

/// Sorts the rows by the name (column 0), the value of the data source
/// (column 1) or the default value (column 2), without regard to case,
/// ascending or descending. Rows whose keys are the same keep their
/// order. Another column leaves the rows as they are.
pub fn sort_settings(settings: &mut Vec<DuckDbSetting>, col_idx: usize, desc: bool)
    ensures
        col_idx <= 2 ==> is_stable_sort(
            final(settings).deep_view(),
            old(settings).deep_view(),
            col_idx,
            desc,
        ),
        col_idx > 2 ==> final(settings).deep_view() == old(settings).deep_view(),
{
    if col_idx > 2 {
        return ;
    }
    let ghost rows = settings.deep_view();
    let n = settings.len();
    let mut i: usize = 0;
    assert(settings.deep_view().take(0) =~= rows.take(0));
    assert(settings.deep_view().skip(0) =~= rows.skip(0));
    while i < n
        invariant
            i <= n,
            col_idx <= 2,
            settings.len() == n,
            rows.len() == n,
            settings.deep_view().skip(i as int) == rows.skip(i as int),
            is_stable_sort(settings.deep_view().take(i as int), rows.take(i as int), col_idx, desc),
        decreases n - i,
    {
        let ghost cur = settings.deep_view();
        let mut p: usize = i;
        while p > 0 && !setting_in_order(&settings[p - 1], &settings[i], col_idx, desc)
            invariant
                p <= i < n,
                settings.len() == n,
                cur == settings.deep_view(),
                forall|j: int| p <= j < i ==> !rows_in_order(#[trigger] cur[j], cur[i as int], col_idx, desc),
            decreases p,
        {
            p -= 1;
        }
        let row = settings.remove(i);
        settings.insert(p, row);
        proof {
            assert(settings.deep_view() =~= cur.remove(i as int).insert(p as int, cur[i as int]));
            lemma_sorted_insert(cur, rows, i as int, p as int, col_idx, desc);
        }
        i += 1;
    }
    assert(settings.deep_view().take(n as int) =~= settings.deep_view());
    assert(rows.take(n as int) =~= rows);
}

} // verus!
