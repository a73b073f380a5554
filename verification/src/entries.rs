//! Keyed values in insertion order.
//!
//! Both the table and the bean registry keep their contents as a list of
//! `(key, value)` pairs in which no key occurs twice. The model of such a list is
//! a `Seq<(Seq<char>, Value)>`; the functions here state what a lookup finds in
//! it and how an insertion changes it.

use vstd::prelude::*;
use crate::text::owned;
use crate::value::Value;

verus! {

/// The model of a keyed list: its pairs, oldest first.
pub type Pairs = Seq<(Seq<char>, Value)>;

/// No key occurs twice.
pub open spec fn distinct_keys(pairs: Pairs) -> bool {
    forall|i: int, j: int| 0 <= i < j < pairs.len() ==> pairs[i].0 != pairs[j].0
}

/// Some pair has the key.
pub open spec fn has_key(pairs: Pairs, key: Seq<char>) -> bool {
    exists|i: int| 0 <= i < pairs.len() && pairs[i].0 == key
}

/// The place of the pair with the key, if there is one.
pub open spec fn position(pairs: Pairs, key: Seq<char>) -> Option<int> {
    if has_key(pairs, key) {
        Some(choose|i: int| 0 <= i < pairs.len() && pairs[i].0 == key)
    } else {
        None
    }
}

/// The value stored under the key, if there is one.
pub open spec fn value_of(pairs: Pairs, key: Seq<char>) -> Option<Value> {
    match position(pairs, key) {
        Some(i) => Some(pairs[i].1),
        None => None,
    }
}

/// In a list without repeated keys, a pair with the key is the one that a
/// lookup finds.
pub proof fn position_is_unique(pairs: Pairs, key: Seq<char>, i: int)
    requires
        distinct_keys(pairs),
        0 <= i < pairs.len(),
        pairs[i].0 == key,
    ensures
        position(pairs, key) == Some(i),
        value_of(pairs, key) == Some(pairs[i].1),
{
    assert(has_key(pairs, key));
    let j = choose|j: int| 0 <= j < pairs.len() && pairs[j].0 == key;
    if j < i {
        assert(pairs[j].0 != pairs[i].0);
    } else if i < j {
        assert(pairs[i].0 != pairs[j].0);
    }
}

/// Appending a pair under a new key keeps the keys distinct, adds the new
/// pair to what lookups find and changes no other lookup.
pub proof fn push_keeps_lookups(pairs: Pairs, key: Seq<char>, value: Value, other: Seq<char>)
    requires
        distinct_keys(pairs),
        !has_key(pairs, key),
    ensures
        distinct_keys(pairs.push((key, value))),
        value_of(pairs.push((key, value)), key) == Some(value),
        other != key ==> value_of(pairs.push((key, value)), other) == value_of(pairs, other),
        has_key(pairs.push((key, value)), other) == (other == key || has_key(pairs, other)),
{
    let after = pairs.push((key, value));
    assert forall|i: int, j: int| 0 <= i < j < after.len() implies after[i].0 != after[j].0 by {
        if j == pairs.len() {
            assert(after[i] == pairs[i]);
        } else {
            assert(after[i] == pairs[i] && after[j] == pairs[j]);
        }
    }
    position_is_unique(after, key, pairs.len() as int);
    if other != key {
        if has_key(pairs, other) {
            let i = choose|i: int| 0 <= i < pairs.len() && pairs[i].0 == other;
            position_is_unique(pairs, other, i);
            assert(after[i] == pairs[i]);
            position_is_unique(after, other, i);
        } else {
            if has_key(after, other) {
                let i = choose|i: int| 0 <= i < after.len() && after[i].0 == other;
                assert(i < pairs.len());
                assert(after[i] == pairs[i]);
                assert(false);
            }
        }
    } else {
        assert(after[pairs.len() as int].0 == key);
    }
}

/// Replacing the value of one pair keeps the keys, makes lookups of its key
/// find the new value and changes no other lookup.
pub proof fn update_keeps_lookups(pairs: Pairs, i: int, value: Value, other: Seq<char>)
    requires
        distinct_keys(pairs),
        0 <= i < pairs.len(),
    ensures
        distinct_keys(pairs.update(i, (pairs[i].0, value))),
        value_of(pairs.update(i, (pairs[i].0, value)), pairs[i].0) == Some(value),
        other != pairs[i].0 ==> value_of(pairs.update(i, (pairs[i].0, value)), other) == value_of(
            pairs,
            other,
        ),
        has_key(pairs.update(i, (pairs[i].0, value)), other) == has_key(pairs, other),
{
    let after = pairs.update(i, (pairs[i].0, value));
    assert forall|a: int, b: int| 0 <= a < b < after.len() implies after[a].0 != after[b].0 by {
        assert(after[a].0 == pairs[a].0 && after[b].0 == pairs[b].0);
    }
    position_is_unique(after, pairs[i].0, i);
    if has_key(pairs, other) {
        let j = choose|j: int| 0 <= j < pairs.len() && pairs[j].0 == other;
        assert(after[j].0 == other);
        if other != pairs[i].0 {
            position_is_unique(pairs, other, j);
            position_is_unique(after, other, j);
        }
    } else {
        if has_key(after, other) {
            let j = choose|j: int| 0 <= j < after.len() && after[j].0 == other;
            assert(pairs[j].0 == other);
            assert(false);
        }
    }
}

/// One key with its value.
#[derive(Debug)]
pub struct Entry {
    pub key: String,
    pub value: Value,
}

/// A list of keyed values in which no key occurs twice.
#[derive(Debug)]
pub struct Entries {
    pub items: Vec<Entry>,
}

impl View for Entries {
    type V = Pairs;

    open spec fn view(&self) -> Pairs {
        Seq::new(self.items@.len(), |i: int| (self.items@[i].key@, self.items@[i].value))
    }
}

impl Entries {
    /// The list is valid: no key occurs twice.
    pub open spec fn wf(self) -> bool {
        distinct_keys(self@)
    }

    /// An empty list.
    pub fn new() -> (list: Entries)
        ensures
            list@ == Pairs::empty(),
            list.wf(),
    {
        let list = Entries { items: Vec::new() };
        assert(list@ =~= Pairs::empty());
        list
    }

    /// The number of pairs.
    pub fn len(&self) -> (n: usize)
        ensures
            n == self@.len(),
    {
        self.items.len()
    }

    /// The place of the pair with the key.
    pub fn find(&self, key: &str) -> (found: Option<usize>)
        requires
            self.wf(),
        ensures
            found matches Some(i) ==> position(self@, key@) == Some(i as int) && i < self@.len()
                && self@[i as int].0 == key@,
            found is None ==> position(self@, key@) is None,
            found is Some == has_key(self@, key@),
    {
        let wanted = owned(key);
        let mut i: usize = 0;
        while i < self.items.len()
            invariant
                self.wf(),
                wanted@ == key@,
                i <= self.items@.len(),
                forall|j: int| 0 <= j < i ==> self@[j].0 != key@,
            decreases self.items@.len() - i,
        {
            if self.items[i].key == wanted {
                proof {
                    position_is_unique(self@, key@, i as int);
                }
                return Some(i);
            }
            i += 1;
        }
        None
    }

    /// The key at a place.
    pub fn key_at(&self, i: usize) -> (key: &String)
        requires
            i < self@.len(),
        ensures
            key@ == self@[i as int].0,
    {
        &self.items[i].key
    }

    /// The value at a place.
    pub fn value_at(&self, i: usize) -> (value: &Value)
        requires
            i < self@.len(),
        ensures
            *value == self@[i as int].1,
    {
        &self.items[i].value
    }

    /// The value at a place, for writing.
    pub fn value_at_mut(&mut self, i: usize) -> (value: &mut Value)
        requires
            i < old(self)@.len(),
        ensures
            *value == old(self)@[i as int].1,
            final(self)@ == old(self)@.update(i as int, (old(self)@[i as int].0, *final(value))),
    {
        let ghost before = self@;
        let entry = &mut self.items[i];
        let value = &mut entry.value;
        proof {
            assert(after_borrow(self)@ =~= before.update(
                i as int,
                (before[i as int].0, *final(value)),
            ));
        }
        value
    }

    /// Appends a pair under a key that the list does not hold yet.
    pub fn push(&mut self, key: String, value: Value)
        requires
            old(self).wf(),
            !has_key(old(self)@, key@),
        ensures
            final(self).wf(),
            final(self)@ == old(self)@.push((key@, value)),
    {
        proof {
            push_keeps_lookups(self@, key@, value, key@);
        }
        self.items.push(Entry { key, value });
        assert(self@ =~= old(self)@.push((key@, value)));
    }

    /// Replaces the value at a place.
    pub fn replace(&mut self, i: usize, value: Value)
        requires
            old(self).wf(),
            i < old(self)@.len(),
        ensures
            final(self).wf(),
            final(self)@ == old(self)@.update(i as int, (old(self)@[i as int].0, value)),
    {
        proof {
            update_keeps_lookups(self@, i as int, value, self@[i as int].0);
        }
        self.items[i].value = value;
        assert(self@ =~= old(self)@.update(i as int, (old(self)@[i as int].0, value)));
    }

    /// A copy of the list, equal to it pair by pair.
    pub fn duplicate(&self) -> (copy: Entries)
        ensures
            copy@ == self@,
    {
        let mut items: Vec<Entry> = Vec::new();
        let mut i: usize = 0;
        while i < self.items.len()
            invariant
                i <= self.items@.len(),
                items@.len() == i,
                forall|j: int| 0 <= j < i ==> items@[j].key@ == self.items@[j].key@
                    && items@[j].value == self.items@[j].value,
            decreases self.items@.len() - i,
        {
            let entry = &self.items[i];
            items.push(Entry { key: entry.key.clone(), value: entry.value.duplicate() });
            i += 1;
        }
        let copy = Entries { items };
        assert(copy@ =~= self@);
        copy
    }
}

} // verus!
