//! What is asked of the registry, and what it answers.
//!
//! The library never touches the registry. It hands out requests, each for
//! one operation on one key, and is handed the reply to each. A key is
//! named by its root and its path below the root; it has to be opened by a
//! request before another request works on it.

use vstd::prelude::*;
use vstd::string::*;

use crate::common::registry::{RegistrySetting, Root, SettingEntry};
use crate::common::text::concat3;

verus! {

/// The rights with which a key is opened.
#[derive(Debug, Clone, Copy, PartialEq, Eq, Structural)]
pub enum Access {
    /// To read the key: its values and its subkeys.
    Read,
    /// To write to the key: to set values and to make or delete subkeys.
    Write,
    /// To set and delete values of the key.
    SetValue,
}

/// What separates the names of the keys in a path.
pub const PATH_SEPARATOR: &'static str = "\\";

/// The path of the subkey `name` of the key at `parent`.
pub open spec fn child_path(parent: Seq<char>, name: Seq<char>) -> Seq<char> {
    parent + PATH_SEPARATOR@ + name
}

/// A key of the registry: a root and the path below it.
#[derive(Debug, PartialEq, Eq, Hash)]
pub struct KeyRef {
    pub root: Root,
    pub path: String,
}

/// A root and the path of a key below it.
pub struct KeyPath {
    pub root: Root,
    pub path: Seq<char>,
}

impl View for KeyRef {
    type V = KeyPath;

    open spec fn view(&self) -> KeyPath {
        KeyPath { root: self.root, path: self.path@ }
    }
}

impl Clone for KeyRef {
    fn clone(&self) -> (copy: Self)
        ensures
            copy == *self,
    {
        Self { root: self.root, path: self.path.clone() }
    }
}

impl KeyPath {
    /// The subkey `name` of this key.
    pub open spec fn child(self, name: Seq<char>) -> KeyPath {
        KeyPath { root: self.root, path: child_path(self.path, name) }
    }
}

impl KeyRef {
    /// The key at `path` below `root`.
    pub fn new(root: Root, path: &str) -> (key: Self)
        ensures
            key@ == (KeyPath { root, path: path@ }),
    {
        Self { root, path: path.to_string() }
    }

    /// The subkey `name` of this key.
    pub fn child(&self, name: &str) -> (key: Self)
        ensures
            key@ == self@.child(name@),
    {
        Self { root: self.root, path: concat3(self.path.as_str(), PATH_SEPARATOR, name) }
    }
}

/// One operation on one key of the registry.
#[derive(Debug, PartialEq, Eq)]
pub enum RegistryRequest {
    /// Open the key at a path below its root.
    OpenKey { key: KeyRef, access: Access },
    /// Open the subkey `name` of the open key `parent`.
    OpenSubkey { parent: KeyRef, name: String, access: Access },
    /// Make the subkey `name` of the open key `parent`.
    CreateSubkey { parent: KeyRef, name: String },
    /// Delete the subkey `name` of the open key `parent`, with its values.
    DeleteSubkey { parent: KeyRef, name: String },
    /// Read the value `name` of the open key as a text.
    GetValue { key: KeyRef, name: String },
    /// Set the value `name` of the open key to a text.
    SetValue { key: KeyRef, name: String, value: String },
    /// Delete the value `name` of the open key.
    DeleteValue { key: KeyRef, name: String },
    /// List the names of the subkeys of the open key.
    EnumKeys { key: KeyRef },
    /// List the values of the open key, each as a text.
    EnumValues { key: KeyRef },
}

/// What a [`RegistryRequest`] asks for.
pub enum RequestView {
    OpenKey { key: KeyPath, access: Access },
    OpenSubkey { parent: KeyPath, name: Seq<char>, access: Access },
    CreateSubkey { parent: KeyPath, name: Seq<char> },
    DeleteSubkey { parent: KeyPath, name: Seq<char> },
    GetValue { key: KeyPath, name: Seq<char> },
    SetValue { key: KeyPath, name: Seq<char>, value: Seq<char> },
    DeleteValue { key: KeyPath, name: Seq<char> },
    EnumKeys { key: KeyPath },
    EnumValues { key: KeyPath },
}

impl View for RegistryRequest {
    type V = RequestView;

    open spec fn view(&self) -> RequestView {
        match self {
            RegistryRequest::OpenKey { key, access } => RequestView::OpenKey { key: key@, access: *access },
            RegistryRequest::OpenSubkey { parent, name, access } => RequestView::OpenSubkey {
                parent: parent@,
                name: name@,
                access: *access,
            },
            RegistryRequest::CreateSubkey { parent, name } => RequestView::CreateSubkey {
                parent: parent@,
                name: name@,
            },
            RegistryRequest::DeleteSubkey { parent, name } => RequestView::DeleteSubkey {
                parent: parent@,
                name: name@,
            },
            RegistryRequest::GetValue { key, name } => RequestView::GetValue { key: key@, name: name@ },
            RegistryRequest::SetValue { key, name, value } => RequestView::SetValue {
                key: key@,
                name: name@,
                value: value@,
            },
            RegistryRequest::DeleteValue { key, name } => RequestView::DeleteValue {
                key: key@,
                name: name@,
            },
            RegistryRequest::EnumKeys { key } => RequestView::EnumKeys { key: key@ },
            RegistryRequest::EnumValues { key } => RequestView::EnumValues { key: key@ },
        }
    }
}

/// The reply of the registry to one request.
#[derive(Debug, PartialEq, Eq)]
pub enum RegistryReply {
    /// The operation was done; there is nothing to hand back.
    Done,
    /// The text of the value that was read.
    Text(String),
    /// The names of the subkeys, in the order of the listing; `None` for
    /// each one that could not be read.
    Names(Vec<Option<String>>),
    /// The values, in the order of the listing; `None` for each one that
    /// could not be read.
    Values(Vec<Option<RegistrySetting>>),
    /// The operation failed, with the message of the system.
    Failed(String),
}

/// What a [`RegistryReply`] says.
pub enum ReplyView {
    Done,
    Text(Seq<char>),
    Names(Seq<Option<Seq<char>>>),
    Values(Seq<Option<SettingEntry>>),
    Failed(Seq<char>),
}

impl View for RegistryReply {
    type V = ReplyView;

    open spec fn view(&self) -> ReplyView {
        match self {
            RegistryReply::Done => ReplyView::Done,
            RegistryReply::Text(text) => ReplyView::Text(text@),
            RegistryReply::Names(names) => ReplyView::Names(names.deep_view()),
            RegistryReply::Values(values) => ReplyView::Values(values.deep_view()),
            RegistryReply::Failed(message) => ReplyView::Failed(message@),
        }
    }
}

/// The items of a listing that could be read, in the order of the listing.
pub open spec fn readable<T>(items: Seq<Option<T>>) -> Seq<T>
    decreases items.len(),
{
    if items.len() == 0 {
        Seq::empty()
    } else {
        match items.last() {
            Some(item) => readable(items.drop_last()).push(item),
            None => readable(items.drop_last()),
        }
    }
}

/// The names of a listing that could be read.
pub fn readable_names(items: &Vec<Option<String>>) -> (names: Vec<String>)
    ensures
        names.deep_view() == readable(items.deep_view()),
{
    let ghost all = items.deep_view();
    let mut names: Vec<String> = Vec::new();
    let mut i: usize = 0;
    assert(names.deep_view() =~= readable(all.take(0)));
    while i < items.len()
        invariant
            i <= items.len(),
            all == items.deep_view(),
            names.deep_view() == readable(all.take(i as int)),
        decreases items.len() - i,
    {
        let ghost before = names.deep_view();
        proof {
            assert(all.take(i + 1).drop_last() =~= all.take(i as int));
            assert(all.take(i + 1).last() == items@[i as int].deep_view());
        }
        match &items[i] {
            Some(name) => {
                names.push(name.clone());
                assert(names.deep_view() =~= before.push(name@));
            },
            None => {},
        }
        i += 1;
    }
    assert(all.take(items.len() as int) =~= all);
    names
}

/// The values of a listing that could be read.
pub fn readable_values(items: &Vec<Option<RegistrySetting>>) -> (values: Vec<RegistrySetting>)
    ensures
        values.deep_view() == readable(items.deep_view()),
{
    let ghost all = items.deep_view();
    let mut values: Vec<RegistrySetting> = Vec::new();
    let mut i: usize = 0;
    assert(values.deep_view() =~= readable(all.take(0)));
    while i < items.len()
        invariant
            i <= items.len(),
            all == items.deep_view(),
            values.deep_view() == readable(all.take(i as int)),
        decreases items.len() - i,
    {
        let ghost before = values.deep_view();
        proof {
            assert(all.take(i + 1).drop_last() =~= all.take(i as int));
            assert(all.take(i + 1).last() == items@[i as int].deep_view());
        }
        match &items[i] {
            Some(value) => {
                values.push(value.clone());
                assert(values.deep_view() =~= before.push(value@));
            },
            None => {},
        }
        i += 1;
    }
    assert(all.take(items.len() as int) =~= all);
    values
}

} // verus!
