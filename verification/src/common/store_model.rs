//! A model of the registry, as far as the data sources use it, and what
//! the operations on the data sources come to when their requests are
//! answered by it.
//!
//! The model holds the keys that exist, each with the names of its
//! subkeys and with its values, in the order in which a listing gives
//! them. Every key that exists can be opened with every right, and every
//! subkey and value can be read.
//!
//! The model takes a name as it is written, and whole. Two names are the
//! same where their characters are, while Windows takes an upper-case
//! letter for its lower-case one; and a name that holds a backslash is one
//! name here, while Windows reads it as a path through several keys. What
//! is proved of the model says nothing of names that differ in case only,
//! nor of names with a backslash.

use vstd::prelude::*;

use crate::common::exchange::{
    after_reply, begin, pending, stage_count, AdvanceView, ExchangeView, OperationView, OutcomeView,
};
use crate::common::protocol::{KeyPath, ReplyView, RequestView};
use crate::common::registry::{entry_names, SettingEntry};
use crate::common::text::first_position;

verus! {

/// A key of the registry: the names of its subkeys and its values.
pub struct KeyModel {
    pub subkeys: Seq<Seq<char>>,
    pub values: Seq<SettingEntry>,
}

/// The keys of the registry that exist.
pub struct StoreModel {
    pub keys: Map<KeyPath, KeyModel>,
}

/// Whether one of the names is the given one.
pub open spec fn has_name(names: Seq<Seq<char>>, name: Seq<char>) -> bool {
    first_position(names, name) < names.len()
}

/// The names without the first that is the given one.
pub open spec fn without_name(names: Seq<Seq<char>>, name: Seq<char>) -> Seq<Seq<char>> {
    if has_name(names, name) {
        names.remove(first_position(names, name))
    } else {
        names
    }
}

/// Whether one of the values has the given name.
pub open spec fn has_entry(values: Seq<SettingEntry>, name: Seq<char>) -> bool {
    has_name(entry_names(values), name)
}

/// The text of the first value of the given name.
pub open spec fn entry_value(values: Seq<SettingEntry>, name: Seq<char>) -> Seq<char> {
    values[first_position(entry_names(values), name)].value
}

/// The values once the one of the given name is set: it is replaced
/// where it stands, or added at the end.
pub open spec fn with_entry(values: Seq<SettingEntry>, name: Seq<char>, value: Seq<char>) -> Seq<
    SettingEntry,
> {
    if has_entry(values, name) {
        values.update(first_position(entry_names(values), name), SettingEntry { name, value })
    } else {
        values.push(SettingEntry { name, value })
    }
}

/// The values without the first of the given name.
pub open spec fn without_entry(values: Seq<SettingEntry>, name: Seq<char>) -> Seq<SettingEntry> {
    if has_entry(values, name) {
        values.remove(first_position(entry_names(values), name))
    } else {
        values
    }
}

/// A listing in which every item could be read.
pub open spec fn all_readable<T>(items: Seq<T>) -> Seq<Option<T>> {
    items.map_values(|item: T| Some(item))
}

impl StoreModel {
    /// Whether the key exists.
    pub open spec fn has_key(self, key: KeyPath) -> bool {
        self.keys.contains_key(key)
    }

    /// Whether a request succeeds: its key exists, and so does the subkey
    /// that is to be opened, the value that is to be read or deleted, or
    /// the subkey that is to be deleted, which must have no subkeys of
    /// its own.
    pub open spec fn grants(self, request: RequestView) -> bool {
        match request {
            RequestView::OpenKey { key, .. } => self.has_key(key),
            RequestView::OpenSubkey { parent, name, .. } => self.has_key(parent) && self.has_key(
                parent.child(name),
            ),
            RequestView::CreateSubkey { parent, .. } => self.has_key(parent),
            RequestView::DeleteSubkey { parent, name } => self.has_key(parent) && self.has_key(
                parent.child(name),
            ) && self.keys[parent.child(name)].subkeys.len() == 0,
            RequestView::GetValue { key, name } => self.has_key(key) && has_entry(
                self.keys[key].values,
                name,
            ),
            RequestView::SetValue { key, .. } => self.has_key(key),
            RequestView::DeleteValue { key, name } => self.has_key(key) && has_entry(
                self.keys[key].values,
                name,
            ),
            RequestView::EnumKeys { key } => self.has_key(key),
            RequestView::EnumValues { key } => self.has_key(key),
        }
    }

    /// The reply to a request. A request that does not succeed fails with
    /// the message `fault`.
    pub open spec fn reply_to(self, request: RequestView, fault: Seq<char>) -> ReplyView {
        if !self.grants(request) {
            ReplyView::Failed(fault)
        } else {
            match request {
                RequestView::GetValue { key, name } => ReplyView::Text(
                    entry_value(self.keys[key].values, name),
                ),
                RequestView::EnumKeys { key } => ReplyView::Names(all_readable(self.keys[key].subkeys)),
                RequestView::EnumValues { key } => ReplyView::Values(all_readable(self.keys[key].values)),
                _ => ReplyView::Done,
            }
        }
    }

    /// The registry after a request. A request that does not succeed
    /// changes nothing, nor does one that opens, reads or lists. A subkey
    /// that is made is empty and is listed last; making one that exists
    /// changes nothing.
    pub open spec fn after(self, request: RequestView) -> StoreModel {
        if !self.grants(request) {
            self
        } else {
            match request {
                RequestView::CreateSubkey { parent, name } => if self.has_key(parent.child(name)) {
                    self
                } else {
                    StoreModel {
                        keys: self.keys.insert(
                            parent,
                            KeyModel { subkeys: self.keys[parent].subkeys.push(name), ..self.keys[parent] },
                        ).insert(
                            parent.child(name),
                            KeyModel { subkeys: Seq::empty(), values: Seq::empty() },
                        ),
                    }
                },
                RequestView::DeleteSubkey { parent, name } => StoreModel {
                    keys: self.keys.insert(
                        parent,
                        KeyModel {
                            subkeys: without_name(self.keys[parent].subkeys, name),
                            ..self.keys[parent]
                        },
                    ).remove(parent.child(name)),
                },
                RequestView::SetValue { key, name, value } => StoreModel {
                    keys: self.keys.insert(
                        key,
                        KeyModel { values: with_entry(self.keys[key].values, name, value), ..self.keys[key] },
                    ),
                },
                RequestView::DeleteValue { key, name } => StoreModel {
                    keys: self.keys.insert(
                        key,
                        KeyModel { values: without_entry(self.keys[key].values, name), ..self.keys[key] },
                    ),
                },
                _ => self,
            }
        }
    }
}

/// What an exchange comes to when the registry answers its requests: the
/// result of the operation, and the registry as it is left.
pub open spec fn run(exchange: ExchangeView, store: StoreModel, fault: Seq<char>) -> (
    Result<OutcomeView, Seq<char>>,
    StoreModel,
)
    decreases stage_count(exchange.op) - exchange.stage,
{
    let request = pending(exchange);
    match after_reply(exchange, store.reply_to(request, fault)) {
        AdvanceView::Finished(result) => (result, store.after(request)),
        AdvanceView::Continue(next) => run(next, store.after(request), fault),
    }
}

/// What an operation comes to when the registry answers its requests.
pub open spec fn perform(op: OperationView, store: StoreModel, fault: Seq<char>) -> (
    Result<OutcomeView, Seq<char>>,
    StoreModel,
) {
    run(begin(op), store, fault)
}

} // verus!
