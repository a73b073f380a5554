//! The [`Table`]: keyed, type-tagged values with defaults from a parent table.
//!
//! A table holds its own entries and at most one parent, its metatable. A
//! lookup asks the table's own entries first and then the metatable, which asks
//! its own metatable in turn. Writing never touches the metatable, so a value
//! set in a table shadows the one inherited under the same key without
//! destroying it.

use vstd::prelude::*;
use crate::entries::{distinct_keys, has_key, position, value_of, Entries, Pairs};
use crate::entries::{push_keeps_lookups, update_keeps_lookups};
use crate::text::{debug_form, owned, quoted};
use crate::value::{tag_name, Typed, Value};

verus! {

/// The model of a table: its own entries, oldest first, and the model of its
/// metatable.
pub struct TableView {
    pub local: Pairs,
    pub parent: Option<Box<TableView>>,
}

impl TableView {
    /// The model of a table without entries and without metatable.
    pub open spec fn empty() -> TableView {
        TableView { local: Pairs::empty(), parent: None }
    }

    /// No key occurs twice among a table's own entries, in this table and in
    /// every table up the chain.
    pub open spec fn wf(self) -> bool
        decreases self,
    {
        &&& distinct_keys(self.local)
        &&& match self.parent {
            Some(parent) => parent.wf(),
            None => true,
        }
    }

    /// What a lookup of the key finds: the table's own value, or else what the
    /// metatable finds.
    pub open spec fn lookup(self, key: Seq<char>) -> Option<Value>
        decreases self,
    {
        match value_of(self.local, key) {
            Some(value) => Some(value),
            None => match self.parent {
                Some(parent) => parent.lookup(key),
                None => None,
            },
        }
    }

    /// The number of entries in the table and in every table up the chain. A key
    /// that a table shadows is counted once for each table that holds it.
    pub open spec fn total_len(self) -> nat
        decreases self,
    {
        self.local.len() + match self.parent {
            Some(parent) => parent.total_len(),
            None => 0,
        }
    }

    /// The local entries after a value is set under a key: the entry with that
    /// key holds the new value, or a new entry stands at the end.
    pub open spec fn local_after_set(self, key: Seq<char>, value: Value) -> Pairs {
        match position(self.local, key) {
            Some(i) => self.local.update(i, (key, value)),
            None => self.local.push((key, value)),
        }
    }
}

/// Why a lookup in a table failed.
#[derive(Debug)]
pub enum TableError {
    /// No table in the chain holds the key.
    KeyNotFound { key: String },
    /// The key was found, but its value was stored at another type than the one
    /// asked for.
    TypeMismatch { key: String, expected_type_name: &'static str, actual_type_name: &'static str },
}

/// The message for a key that was not found, from the key in its quoted form.
pub fn key_not_found_text(quoted_key: &str) -> (text: String)
    ensures
        text@ == quoted_key@ + " not found in table"@,
{
    owned(quoted_key).concat(" not found in table")
}

/// The message for a value of another type than the one asked for, from the
/// key in its quoted form and the name of the type asked for.
pub fn type_mismatch_text(quoted_key: &str, expected: &str) -> (text: String)
    ensures
        text@ == quoted_key@ + " is not of type "@ + expected@,
{
    owned(quoted_key).concat(" is not of type ").concat(expected)
}

impl TableError {
    /// The message of the error.
    pub open spec fn message_of(self) -> Seq<char> {
        match self {
            TableError::KeyNotFound { key } => debug_form(key@) + " not found in table"@,
            TableError::TypeMismatch { key, expected_type_name, actual_type_name } => debug_form(
                key@,
            ) + " is not of type "@ + expected_type_name@,
        }
    }

    /// The message of the error: the key as `Debug` shows it, and what went
    /// wrong with it.
    pub fn message(&self) -> (text: String)
        ensures
            text@ == self.message_of(),
    {
        match self {
            TableError::KeyNotFound { key } => {
                let form = quoted(key.as_str());
                key_not_found_text(form.as_str())
            },
            TableError::TypeMismatch { key, expected_type_name, actual_type_name } => {
                let form = quoted(key.as_str());
                type_mismatch_text(form.as_str(), expected_type_name)
            },
        }
    }
}

/// A table of keyed, type-tagged values with an optional metatable.
#[derive(Debug)]
pub struct Table {
    metatable: Option<Box<Table>>,
    entries: Entries,
}

impl View for Table {
    type V = TableView;

    closed spec fn view(&self) -> TableView {
        self.model()
    }
}

impl Table {
    spec fn model(self) -> TableView
        decreases self,
    {
        TableView {
            local: self.entries@,
            parent: match self.metatable {
                Some(parent) => Some(Box::new(parent.model())),
                None => None,
            },
        }
    }

    /// Creates a table without entries and without metatable.
    pub fn new() -> (table: Table)
        ensures
            table@ == TableView::empty(),
            table@.wf(),
    {
        Table { metatable: None, entries: Entries::new() }
    }

    /// Sets the value under a key among the table's own entries. A value that
    /// the table already held under the key is replaced; the metatable is left
    /// as it is.
    pub fn set<T: Typed>(&mut self, key: &str, value: T)
        requires
            old(self)@.wf(),
        ensures
            final(self)@.wf(),
            final(self)@.parent == old(self)@.parent,
            final(self)@.local == old(self)@.local_after_set(key@, value.lift()),
            final(self)@.lookup(key@) == Some(value.lift()),
            forall|other: Seq<char>|
                other != key@ ==> final(self)@.lookup(other) == old(self)@.lookup(other),
    {
        let stored = value.into_value();
        let ghost before = self.entries@;
        match self.entries.find(key) {
            Some(i) => {
                self.entries.replace(i, stored);
                proof {
                    assert forall|other: Seq<char>| other != key@ implies value_of(
                        self.entries@,
                        other,
                    ) == value_of(before, other) by {
                        update_keeps_lookups(before, i as int, stored, other);
                    }
                    update_keeps_lookups(before, i as int, stored, key@);
                }
            },
            None => {
                self.entries.push(owned(key), stored);
                proof {
                    assert forall|other: Seq<char>| other != key@ implies value_of(
                        self.entries@,
                        other,
                    ) == value_of(before, other) by {
                        push_keeps_lookups(before, key@, stored, other);
                    }
                    push_keeps_lookups(before, key@, stored, key@);
                }
            },
        }
    }

    /// Gets the value under a key at type `T`: the table's own value if it has
    /// one, or else the one that the metatable chain finds.
    ///
    /// Fails with `KeyNotFound` if no table in the chain holds the key, and with
    /// `TypeMismatch` if the value found was stored at another type.
    pub fn get<T: Typed>(&self, key: &str) -> (found: Result<&T, TableError>)
        requires
            self@.wf(),
        ensures
            match self@.lookup(key@) {
                None => found matches Err(TableError::KeyNotFound { key: k }) && k@ == key@,
                Some(value) => if value.tag_of() == T::tag_spec() {
                    found matches Ok(x) && x.lift() == value
                } else {
                    found matches Err(
                        TableError::TypeMismatch { key: k, expected_type_name, actual_type_name },
                    ) && k@ == key@ && expected_type_name@ == tag_name(T::tag_spec())
                        && actual_type_name@ == tag_name(value.tag_of())
                },
            },
        decreases self,
    {
        match self.entries.find(key) {
            Some(i) => {
                let value = self.entries.value_at(i);
                match T::peek(value) {
                    Some(x) => Ok(x),
                    None => Err(
                        TableError::TypeMismatch {
                            key: owned(key),
                            expected_type_name: T::tag().name(),
                            actual_type_name: value.kind_name(),
                        },
                    ),
                }
            },
            None => match &self.metatable {
                None => Err(TableError::KeyNotFound { key: owned(key) }),
                Some(parent) => parent.get(key),
            },
        }
    }

    /// Checks if the table's own entries hold the key. The metatable is not
    /// asked.
    pub fn contains_key(&self, key: &str) -> (held: bool)
        requires
            self@.wf(),
        ensures
            held == has_key(self@.local, key@),
    {
        self.entries.find(key).is_some()
    }

    /// The number of entries in this table and up its metatable chain, counting
    /// a shadowed key once for each table that holds it. A count beyond
    /// `usize::MAX` is reported as `usize::MAX`.
    pub fn len(&self) -> (n: usize)
        ensures
            n == if self@.total_len() <= usize::MAX {
                self@.total_len()
            } else {
                usize::MAX as nat
            },
        decreases self,
    {
        let own = self.entries.len();
        let inherited = match &self.metatable {
            Some(parent) => parent.len(),
            None => 0,
        };
        if own > usize::MAX - inherited {
            usize::MAX
        } else {
            own + inherited
        }
    }

    /// Sets the metatable of this table, replacing the one it had.
    pub fn set_metatable(&mut self, table: Table)
        ensures
            final(self)@.local == old(self)@.local,
            final(self)@.parent == Some(Box::new(table@)),
    {
        self.metatable = Some(Box::new(table));
    }

    /// Gets the metatable of this table.
    pub fn metatable(&self) -> (parent: Option<&Table>)
        ensures
            match parent {
                Some(table) => self@.parent == Some(Box::new(table@)),
                None => self@.parent is None,
            },
    {
        match &self.metatable {
            Some(parent) => Some(&**parent),
            None => None,
        }
    }

    /// A copy of the table and of its metatable chain.
    pub fn duplicate(&self) -> (copy: Table)
        ensures
            copy@ == self@,
        decreases self,
    {
        let metatable = match &self.metatable {
            Some(parent) => Some(Box::new(parent.duplicate())),
            None => None,
        };
        Table { metatable, entries: self.entries.duplicate() }
    }
}

impl Clone for Table {
    fn clone(&self) -> (copy: Table)
        ensures
            copy@ == self@,
    {
        self.duplicate()
    }
}

} // verus!
