//! The index from a type to the ids of the beans of that type.

use vstd::prelude::*;
use crate::value::TypeTag;

verus! {

/// The ids of the beans of one type, in insertion order.
#[derive(Debug)]
pub struct TypeIds {
    pub tag: TypeTag,
    pub ids: Vec<String>,
}

/// The ids of the beans of each type that has beans.
#[derive(Debug)]
pub struct TypeIndex {
    pub groups: Vec<TypeIds>,
}

/// The ids as sequences of characters.
pub open spec fn names(ids: Seq<String>) -> Seq<Seq<char>> {
    ids.map_values(|id: String| id@)
}

impl TypeIndex {
    /// Some group is for the type.
    pub open spec fn has_group(self, tag: TypeTag) -> bool {
        exists|g: int| 0 <= g < self.groups@.len() && (#[trigger] self.groups@[g]).tag == tag
    }

    /// The place of the group for the type, if it has one.
    pub open spec fn group_of(self, tag: TypeTag) -> Option<int> {
        if self.has_group(tag) {
            Some(
                choose|g: int|
                    0 <= g < self.groups@.len() && (#[trigger] self.groups@[g]).tag == tag,
            )
        } else {
            None
        }
    }

    /// The ids that the index lists for the type: those of its group, or none.
    pub open spec fn listed(self, tag: TypeTag) -> Seq<Seq<char>> {
        match self.group_of(tag) {
            Some(g) => names(self.groups@[g].ids@),
            None => Seq::empty(),
        }
    }

    /// No type has two groups.
    pub open spec fn wf(self) -> bool {
        forall|g: int, h: int|
            0 <= g < h < self.groups@.len() ==> (#[trigger] self.groups@[g]).tag != (
            #[trigger] self.groups@[h]).tag
    }

    /// In a valid index, a group for the type is the one that lookups find.
    pub proof fn group_is_unique(self, tag: TypeTag, g: int)
        requires
            self.wf(),
            0 <= g < self.groups@.len(),
            self.groups@[g].tag == tag,
        ensures
            self.group_of(tag) == Some(g),
            self.listed(tag) == names(self.groups@[g].ids@),
    {
        assert(self.has_group(tag));
        let h = choose|h: int|
            0 <= h < self.groups@.len() && (#[trigger] self.groups@[h]).tag == tag;
        if h < g {
            assert(self.groups@[h].tag != self.groups@[g].tag);
        } else if g < h {
            assert(self.groups@[g].tag != self.groups@[h].tag);
        }
    }

    /// An index without groups.
    pub fn new() -> (index: Self)
        ensures
            index.wf(),
            forall|tag: TypeTag| index.listed(tag) == Seq::<Seq<char>>::empty(),
    {
        TypeIndex { groups: Vec::new() }
    }

    /// The place of the group for the type.
    pub fn find(&self, tag: TypeTag) -> (found: Option<usize>)
        requires
            self.wf(),
        ensures
            match found {
                Some(g) => g < self.groups@.len() && self.group_of(tag) == Some(g as int),
                None => self.group_of(tag) is None,
            },
    {
        let mut g: usize = 0;
        while g < self.groups.len()
            invariant
                self.wf(),
                g <= self.groups@.len(),
                forall|h: int| 0 <= h < g ==> (#[trigger] self.groups@[h]).tag != tag,
            decreases self.groups@.len() - g,
        {
            if self.groups[g].tag == tag {
                proof {
                    self.group_is_unique(tag, g as int);
                }
                return Some(g);
            }
            g += 1;
        }
        None
    }

    /// Lists an id under a type, behind the ids that the type has already.
    pub fn add(&mut self, tag: TypeTag, id: String)
        requires
            old(self).wf(),
        ensures
            final(self).wf(),
            forall|other: TypeTag|
                #![trigger final(self).listed(other)]
                final(self).listed(other) == if other == tag {
                    old(self).listed(other).push(id@)
                } else {
                    old(self).listed(other)
                },
    {
        let ghost before = *self;
        match self.find(tag) {
            Some(g) => {
                self.groups[g].ids.push(id);
                proof {
                    assert forall|a: int, b: int| 0 <= a < b < self.groups@.len() implies (
                    #[trigger] self.groups@[a]).tag != (#[trigger] self.groups@[b]).tag by {
                        assert(self.groups@[a].tag == before.groups@[a].tag);
                        assert(self.groups@[b].tag == before.groups@[b].tag);
                    }
                    assert forall|other: TypeTag|
                        #![trigger self.listed(other)]
                        self.listed(other) == if other == tag {
                            before.listed(other).push(id@)
                        } else {
                            before.listed(other)
                        } by {
                        if other == tag {
                            self.group_is_unique(tag, g as int);
                            assert(names(self.groups@[g as int].ids@) =~= names(
                                before.groups@[g as int].ids@,
                            ).push(id@));
                        } else if before.has_group(other) {
                            let h = before.group_of(other).unwrap();
                            before.group_is_unique(other, h);
                            assert(self.groups@[h] == before.groups@[h]);
                            self.group_is_unique(other, h);
                        } else {
                            if self.has_group(other) {
                                let h = self.group_of(other).unwrap();
                                assert(before.groups@[h].tag == other);
                            }
                        }
                    }
                }
            },
            None => {
                let mut ids: Vec<String> = Vec::new();
                ids.push(id);
                self.groups.push(TypeIds { tag, ids });
                proof {
                    let last = before.groups@.len() as int;
                    assert forall|a: int, b: int| 0 <= a < b < self.groups@.len() implies (
                    #[trigger] self.groups@[a]).tag != (#[trigger] self.groups@[b]).tag by {
                        if b == last {
                            assert(before.groups@[a].tag != tag);
                        } else {
                            assert(self.groups@[a] == before.groups@[a]);
                            assert(self.groups@[b] == before.groups@[b]);
                        }
                    }
                    assert forall|other: TypeTag|
                        #![trigger self.listed(other)]
                        self.listed(other) == if other == tag {
                            before.listed(other).push(id@)
                        } else {
                            before.listed(other)
                        } by {
                        if other == tag {
                            self.group_is_unique(tag, last);
                            let only = Seq::<Seq<char>>::empty().push(id@);
                            assert(names(self.groups@[last].ids@) =~= only);
                        } else if before.has_group(other) {
                            let h = before.group_of(other).unwrap();
                            before.group_is_unique(other, h);
                            assert(self.groups@[h] == before.groups@[h]);
                            self.group_is_unique(other, h);
                        } else {
                            if self.has_group(other) {
                                let h = self.group_of(other).unwrap();
                                assert(h < last);
                                assert(before.groups@[h].tag == other);
                            }
                        }
                    }
                }
            },
        }
    }

    /// A copy of the ids that the index lists for the type.
    pub fn ids_of_type(&self, tag: TypeTag) -> (ids: Vec<String>)
        requires
            self.wf(),
        ensures
            names(ids@) == self.listed(tag),
    {
        let mut ids: Vec<String> = Vec::new();
        match self.find(tag) {
            Some(g) => {
                let group = &self.groups[g].ids;
                let mut i: usize = 0;
                while i < group.len()
                    invariant
                        i <= group@.len(),
                        ids@.len() == i,
                        forall|j: int| 0 <= j < i ==> (#[trigger] ids@[j])@ == group@[j]@,
                    decreases group@.len() - i,
                {
                    ids.push(group[i].clone());
                    i += 1;
                }
                assert(names(ids@) =~= names(group@));
            },
            None => {
                assert(names(ids@) =~= Seq::<Seq<char>>::empty());
            },
        }
        ids
    }
}

} // verus!
