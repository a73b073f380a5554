//! The bean registry.
//!
//! A registry holds each bean under an id that is unique for the registry's
//! lifetime: a bean is never overwritten and never removed, and the type it was
//! inserted at never changes. The model of a registry is the list of its
//! `(id, value)` pairs in insertion order. Beside the beans the registry keeps
//! an index from each type to the ids of the beans of that type, which every
//! insertion extends.

use vstd::prelude::*;
use core::marker::PhantomData;
use crate::entries::{distinct_keys, has_key, position, value_of, Entries, Pairs};
use crate::entries::{position_is_unique, push_keeps_lookups, update_keeps_lookups};
use crate::text::owned;
use crate::beans::index::{names, TypeIndex};
use crate::beans::params::BeansParam;
use crate::value::{tag_name, TypeTag, Typed, Value};

verus! {

/// An error occurred using beans.
#[derive(Debug)]
pub enum BeanError {
    /// A bean with the id is already registered.
    AlreadyExists { name: String },
    /// No bean with the id is registered.
    NotFound { name: String },
    /// The bean with the id was inserted at another type than the one asked for.
    WrongType { name: String, expected: &'static str, actual: &'static str },
    /// A constructor failed for a reason of its own.
    Custom { error: String },
}

impl BeanError {
    /// The message of the error.
    pub open spec fn message_of(self) -> Seq<char> {
        match self {
            BeanError::AlreadyExists { name } => "bean with id "@ + name@ + " already exists"@,
            BeanError::NotFound { name } => "bean with id "@ + name@ + " not found"@,
            BeanError::WrongType { name, expected, actual } => "bean with id "@ + name@
                + " has type "@ + actual@ + ", but "@ + expected@ + " was requested"@,
            BeanError::Custom { error } => error@,
        }
    }

    /// The message of the error.
    pub fn message(&self) -> (text: String)
        ensures
            text@ == self.message_of(),
    {
        match self {
            BeanError::AlreadyExists { name } => owned("bean with id ").concat(
                name.as_str(),
            ).concat(" already exists"),
            BeanError::NotFound { name } => owned("bean with id ").concat(name.as_str()).concat(
                " not found",
            ),
            BeanError::WrongType { name, expected, actual } => owned("bean with id ").concat(
                name.as_str(),
            ).concat(" has type ").concat(actual).concat(", but ").concat(expected).concat(
                " was requested",
            ),
            BeanError::Custom { error } => error.clone(),
        }
    }
}

pub type BeanResult<T> = Result<T, BeanError>;

/// The pairs whose value was stored at the type with the tag, oldest first.
pub open spec fn pairs_of(pairs: Pairs, tag: TypeTag) -> Pairs {
    pairs.filter(|pair: (Seq<char>, Value)| pair.1.tag_of() == tag)
}

/// The ids of the beans stored at the type with the tag, in insertion order.
pub open spec fn ids_of(pairs: Pairs, tag: TypeTag) -> Seq<Seq<char>> {
    pairs_of(pairs, tag).map_values(|pair: (Seq<char>, Value)| pair.0)
}

/// The values of the beans stored at the type with the tag, in insertion
/// order.
pub open spec fn values_of(pairs: Pairs, tag: TypeTag) -> Seq<Value> {
    pairs_of(pairs, tag).map_values(|pair: (Seq<char>, Value)| pair.1)
}

/// What the newest pair adds to the pairs of a type: itself, if it was stored at
/// that type, and nothing otherwise.
pub proof fn pairs_of_push(pairs: Pairs, pair: (Seq<char>, Value), tag: TypeTag)
    ensures
        pairs_of(pairs.push(pair), tag) == if pair.1.tag_of() == tag {
            pairs_of(pairs, tag).push(pair)
        } else {
            pairs_of(pairs, tag)
        },
        ids_of(pairs.push(pair), tag) == if pair.1.tag_of() == tag {
            ids_of(pairs, tag).push(pair.0)
        } else {
            ids_of(pairs, tag)
        },
        values_of(pairs.push(pair), tag) == if pair.1.tag_of() == tag {
            values_of(pairs, tag).push(pair.1)
        } else {
            values_of(pairs, tag)
        },
{
    reveal(Seq::filter);
    assert(pairs.push(pair).drop_last() =~= pairs);
    if pair.1.tag_of() == tag {
        assert(ids_of(pairs.push(pair), tag) =~= ids_of(pairs, tag).push(pair.0));
        assert(values_of(pairs.push(pair), tag) =~= values_of(pairs, tag).push(pair.1));
    }
}

/// A registry without beans has no bean of any type.
pub proof fn pairs_of_empty(tag: TypeTag)
    ensures
        pairs_of(Pairs::empty(), tag) == Pairs::empty(),
        ids_of(Pairs::empty(), tag) == Seq::<Seq<char>>::empty(),
        values_of(Pairs::empty(), tag) == Seq::<Value>::empty(),
{
    reveal(Seq::filter);
    assert(ids_of(Pairs::empty(), tag) =~= Seq::<Seq<char>>::empty());
    assert(values_of(Pairs::empty(), tag) =~= Seq::<Value>::empty());
}

/// Writing a value of the same type over a bean changes no list of ids: every
/// type keeps its ids, in their order.
pub proof fn update_keeps_ids(pairs: Pairs, at: int, value: Value, tag: TypeTag)
    requires
        0 <= at < pairs.len(),
        value.tag_of() == pairs[at].1.tag_of(),
    ensures
        ids_of(pairs.update(at, (pairs[at].0, value)), tag) == ids_of(pairs, tag),
    decreases pairs.len(),
{
    let after = pairs.update(at, (pairs[at].0, value));
    let front = pairs.drop_last();
    assert(pairs =~= front.push(pairs.last()));
    pairs_of_push(front, pairs.last(), tag);
    if at == pairs.len() - 1 {
        assert(after =~= front.push((pairs[at].0, value)));
        pairs_of_push(front, (pairs[at].0, value), tag);
    } else {
        assert(after =~= front.update(at, (front[at].0, value)).push(pairs.last()));
        pairs_of_push(front.update(at, (front[at].0, value)), pairs.last(), tag);
        update_keeps_ids(front, at, value, tag);
    }
}

/// Every id in the list of a type is the id of a bean of that type.
pub proof fn listed_id_is_held(pairs: Pairs, tag: TypeTag, i: int)
    requires
        distinct_keys(pairs),
        0 <= i < ids_of(pairs, tag).len(),
    ensures
        value_of(pairs, ids_of(pairs, tag)[i]) matches Some(value) && value.tag_of() == tag,
{
    let pred = |pair: (Seq<char>, Value)| pair.1.tag_of() == tag;
    let kept = pairs.filter(pred);
    pairs.lemma_filter_pred(pred, i);
    assert(kept.contains(kept[i]));
    pairs.lemma_filter_contains_rev(pred, kept[i]);
    let j = choose|j: int| 0 <= j < pairs.len() && pairs[j] == kept[i];
    position_is_unique(pairs, kept[i].0, j);
}

/// Uniqueness: once a bean is inserted under an id, the id is taken, the value
/// found under it is the one inserted, and every other id finds what it found
/// before.
pub proof fn inserted_id_is_taken(pairs: Pairs, id: Seq<char>, value: Value, other: Seq<char>)
    requires
        distinct_keys(pairs),
        !has_key(pairs, id),
    ensures
        distinct_keys(pairs.push((id, value))),
        has_key(pairs.push((id, value)), id),
        value_of(pairs.push((id, value)), id) == Some(value),
        other != id ==> value_of(pairs.push((id, value)), other) == value_of(pairs, other),
{
    push_keeps_lookups(pairs, id, value, other);
    push_keeps_lookups(pairs, id, value, id);
}

/// Multi-query completeness: a bean inserted at a type raises the number of
/// beans of that type by one and leaves the number of every other type as it
/// was.
pub proof fn multi_query_counts(pairs: Pairs, id: Seq<char>, value: Value, tag: TypeTag)
    ensures
        values_of(pairs.push((id, value)), tag).len() == values_of(pairs, tag).len() + (if value
            .tag_of() == tag {
            1int
        } else {
            0int
        }),
        ids_of(pairs.push((id, value)), tag).len() == values_of(pairs.push((id, value)), tag).len(),
{
    pairs_of_push(pairs, (id, value), tag);
}

/// Stores beans for querying and adding.
#[derive(Debug)]
pub struct Beans {
    beans: Entries,
    type_id_to_id: TypeIndex,
}

impl View for Beans {
    type V = Pairs;

    closed spec fn view(&self) -> Pairs {
        self.beans@
    }
}

impl Beans {
    /// The registry is valid: no id occurs twice, and the index from types to
    /// ids lists, for every type, the ids of the beans of that type in insertion
    /// order.
    pub closed spec fn wf(self) -> bool {
        &&& distinct_keys(self@)
        &&& self.type_id_to_id.wf()
        &&& forall|tag: TypeTag| #[trigger] self.type_id_to_id.listed(tag) == ids_of(self@, tag)
    }

    /// In a valid registry no id occurs twice.
    pub proof fn ids_are_distinct(self)
        requires
            self.wf(),
        ensures
            distinct_keys(self@),
    {
    }

    /// Creates a registry without beans.
    pub fn new() -> (beans: Beans)
        ensures
            beans@ == Pairs::empty(),
            beans.wf(),
    {
        let beans = Beans { beans: Entries::new(), type_id_to_id: TypeIndex::new() };
        proof {
            assert forall|tag: TypeTag| #[trigger]
                beans.type_id_to_id.listed(tag) == ids_of(beans@, tag) by {
                pairs_of_empty(tag);
            }
        }
        beans
    }

    /// Inserts a bean. Fails with `AlreadyExists`, and changes nothing, if a bean
    /// with the id is already registered; otherwise the bean becomes the newest
    /// of the registry.
    pub fn insert<T: Typed>(&mut self, id: &str, value: T) -> (done: BeanResult<()>)
        requires
            old(self).wf(),
        ensures
            final(self).wf(),
            has_key(old(self)@, id@) ==> final(self)@ == old(self)@ && (done matches Err(
                BeanError::AlreadyExists { name },
            ) && name@ == id@),
            !has_key(old(self)@, id@) ==> final(self)@ == old(self)@.push((id@, value.lift()))
                && done is Ok,
    {
        if self.beans.find(id).is_some() {
            return Err(BeanError::AlreadyExists { name: owned(id) });
        }
        let ghost before = self@;
        let ghost stored = value.lift();
        self.beans.push(owned(id), value.into_value());
        self.type_id_to_id.add(T::tag(), owned(id));
        proof {
            T::lift_is_tagged(value);
            assert forall|tag: TypeTag| #[trigger]
                self.type_id_to_id.listed(tag) == ids_of(self@, tag) by {
                pairs_of_push(before, (id@, stored), tag);
            }
        }
        Ok(())
    }

    /// Gets the bean with the id at type `T`.
    ///
    /// Fails with `NotFound` if no bean has the id, and with `WrongType` if the
    /// bean was inserted at another type.
    pub fn get<T: Typed>(&self, id: &str) -> (found: BeanResult<&T>)
        requires
            self.wf(),
        ensures
            match value_of(self@, id@) {
                None => found matches Err(BeanError::NotFound { name }) && name@ == id@,
                Some(value) => if value.tag_of() == T::tag_spec() {
                    found matches Ok(x) && x.lift() == value
                } else {
                    found matches Err(BeanError::WrongType { name, expected, actual }) && name@
                        == id@ && expected@ == tag_name(T::tag_spec()) && actual@ == tag_name(
                        value.tag_of(),
                    )
                },
            },
    {
        match self.beans.find(id) {
            None => Err(BeanError::NotFound { name: owned(id) }),
            Some(i) => {
                let value = self.beans.value_at(i);
                match T::peek(value) {
                    Some(x) => Ok(x),
                    None => Err(
                        BeanError::WrongType {
                            name: owned(id),
                            expected: T::tag().name(),
                            actual: value.kind_name(),
                        },
                    ),
                }
            },
        }
    }

    /// Gets the bean with the id at type `T`, for writing. What is written
    /// through the reference becomes the bean's value; its id, its type and every
    /// other bean stay as they are.
    ///
    /// Fails as [`Beans::get`] does, and then changes nothing.
    pub fn get_mut<T: Typed>(&mut self, id: &str) -> (found: BeanResult<&mut T>)
        requires
            old(self).wf(),
        ensures
            final(self).wf(),
            match value_of(old(self)@, id@) {
                None => final(self)@ == old(self)@ && (found matches Err(
                    BeanError::NotFound { name },
                ) && name@ == id@),
                Some(value) => if value.tag_of() == T::tag_spec() {
                    found matches Ok(x) && x.lift() == value && final(self)@ == old(self)@.update(
                        position(old(self)@, id@).unwrap(),
                        (id@, (*final(x)).lift()),
                    )
                } else {
                    final(self)@ == old(self)@ && (found matches Err(
                        BeanError::WrongType { name, expected, actual },
                    ) && name@ == id@ && expected@ == tag_name(T::tag_spec()) && actual@
                        == tag_name(value.tag_of()))
                },
            },
    {
        match self.beans.find(id) {
            None => Err(BeanError::NotFound { name: owned(id) }),
            Some(i) => {
                let actual = self.beans.value_at(i).kind_name();
                proof {
                    let before = self.beans@;
                    assert forall|v: Value| #[trigger]
                        distinct_keys(before.update(i as int, (before[i as int].0, v))) by {
                        update_keeps_lookups(before, i as int, v, id@);
                    }
                    assert forall|written: T, tag: TypeTag|
                        before[i as int].1.tag_of() == T::tag_spec() implies #[trigger] ids_of(
                        before.update(i as int, (before[i as int].0, written.lift())),
                        tag,
                    ) == ids_of(before, tag) by {
                        T::lift_is_tagged(written);
                        update_keeps_ids(before, i as int, written.lift(), tag);
                    }
                    assert(before.update(i as int, (before[i as int].0, before[i as int].1))
                        =~= before);
                }
                let value = self.beans.value_at_mut(i);
                let found = T::peek_mut(value);
                match found {
                    Some(x) => Ok(x),
                    None => Err(
                        BeanError::WrongType {
                            name: owned(id),
                            expected: T::tag().name(),
                            actual,
                        },
                    ),
                }
            },
        }
    }
    /// Gets all ids, in insertion order.
    pub fn get_ids(&self) -> (ids: Vec<String>)
        ensures
            ids@.len() == self@.len(),
            forall|i: int| 0 <= i < ids@.len() ==> (#[trigger] ids@[i])@ == self@[i].0,
    {
        let mut ids: Vec<String> = Vec::new();
        let mut i: usize = 0;
        while i < self.beans.len()
            invariant
                i <= self@.len(),
                ids@.len() == i,
                forall|j: int| 0 <= j < i ==> ids@[j]@ == self@[j].0,
            decreases self@.len() - i,
        {
            ids.push(self.beans.key_at(i).clone());
            i += 1;
        }
        ids
    }

    /// Gets the ids of all beans of type `T`, in insertion order.
    pub fn get_ids_of<T: Typed>(&self) -> (ids: Vec<String>)
        requires
            self.wf(),
        ensures
            ids@.len() == ids_of(self@, T::tag_spec()).len(),
            forall|i: int|
                0 <= i < ids@.len() ==> (#[trigger] ids@[i])@ == ids_of(self@, T::tag_spec())[i],
    {
        let ids = self.type_id_to_id.ids_of_type(T::tag());
        proof {
            assert(self.type_id_to_id.listed(T::tag_spec()) == ids_of(self@, T::tag_spec()));
            assert forall|i: int| 0 <= i < ids@.len() implies (#[trigger] ids@[i])@ == ids_of(
                self@,
                T::tag_spec(),
            )[i] by {
                assert(names(ids@)[i] == ids@[i]@);
            }
            assert(names(ids@).len() == ids@.len());
        }
        ids
    }

    /// Gets all beans of type `T`, in insertion order.
    pub fn get_all<T: Typed>(&self) -> (all: Vec<&T>)
        ensures
            all@.len() == values_of(self@, T::tag_spec()).len(),
            forall|i: int|
                0 <= i < all@.len() ==> (#[trigger] all@[i]).lift() == values_of(
                    self@,
                    T::tag_spec(),
                )[i],
    {
        let ghost tag = T::tag_spec();
        let mut all: Vec<&T> = Vec::new();
        let mut i: usize = 0;
        proof {
            pairs_of_empty(tag);
            assert(self@.take(0) =~= Pairs::empty());
        }
        while i < self.beans.len()
            invariant
                tag == T::tag_spec(),
                i <= self@.len(),
                all@.len() == values_of(self@.take(i as int), tag).len(),
                forall|j: int|
                    0 <= j < all@.len() ==> all@[j].lift() == values_of(
                        self@.take(i as int),
                        tag,
                    )[j],
            decreases self@.len() - i,
        {
            proof {
                pairs_of_push(self@.take(i as int), self@[i as int], tag);
                assert(self@.take(i + 1) =~= self@.take(i as int).push(self@[i as int]));
            }
            match T::peek(self.beans.value_at(i)) {
                Some(x) => {
                    all.push(x);
                },
                None => {},
            }
            i += 1;
        }
        proof {
            assert(self@.take(i as int) =~= self@);
        }
        all
    }
    /// Gets all beans of type `T` for writing, in insertion order, through a
    /// cursor that hands them out one by one.
    pub fn get_all_mut<T: Typed>(&mut self) -> (all: BeanMutIter<'_, T>)
        requires
            old(self).wf(),
        ensures
            all.wf(),
            all.beans@ == old(self)@,
            *final(all.beans) == *final(self),
            all.rest() == ids_of(old(self)@, T::tag_spec()),
    {
        let ids = self.get_ids_of::<T>();
        let all = BeanMutIter { beans: self, ids, next: 0, _ty: PhantomData };
        assert(all.rest() =~= ids_of(all.beans@, T::tag_spec()));
        all
    }

    /// Copies of all beans of type `T`, in insertion order.
    pub fn copies_of<T: Typed>(&self) -> (all: Vec<T>)
        ensures
            all@.len() == values_of(self@, T::tag_spec()).len(),
            forall|i: int|
                0 <= i < all@.len() ==> (#[trigger] all@[i]).lift() == values_of(
                    self@,
                    T::tag_spec(),
                )[i],
    {
        let ghost tag = T::tag_spec();
        let mut all: Vec<T> = Vec::new();
        let mut i: usize = 0;
        proof {
            pairs_of_empty(tag);
            assert(self@.take(0) =~= Pairs::empty());
        }
        while i < self.beans.len()
            invariant
                tag == T::tag_spec(),
                i <= self@.len(),
                all@.len() == values_of(self@.take(i as int), tag).len(),
                forall|j: int|
                    0 <= j < all@.len() ==> all@[j].lift() == values_of(
                        self@.take(i as int),
                        tag,
                    )[j],
            decreases self@.len() - i,
        {
            proof {
                pairs_of_push(self@.take(i as int), self@[i as int], tag);
                assert(self@.take(i + 1) =~= self@.take(i as int).push(self@[i as int]));
            }
            match T::take(self.beans.value_at(i).duplicate()) {
                Some(x) => {
                    all.push(x);
                },
                None => {},
            }
            i += 1;
        }
        proof {
            assert(self@.take(i as int) =~= self@);
        }
        all
    }
    /// Create a value from some beans: resolves the constructor's dependencies
    /// against the registry and calls the constructor with them. The value is
    /// not stored.
    ///
    /// Fails with the error of the first dependency that cannot be resolved, and
    /// then the constructor is not called; otherwise the result is the
    /// constructor's.
    pub fn create<P: BeansParam, T, F: FnOnce(P) -> BeanResult<T>>(&self, cons: F) -> (built:
        BeanResult<T>)
        requires
            self.wf(),
            forall|param: P| #[trigger] param.accepts(self@) ==> call_requires(cons, (param,)),
        ensures
            if P::resolvable(self@) {
                exists|param: P| #[trigger]
                    param.accepts(self@) && call_ensures(cons, (param,), built)
            } else {
                built matches Err(error) && P::rejects(self@, error)
            },
    {
        let mut state = P::init_state(self);
        match P::get_param(&mut state, self) {
            Ok(param) => cons(param),
            Err(error) => Err(error),
        }
    }

    /// Create a bean and insert it: [`Beans::create`] followed by
    /// [`Beans::insert`]. Where either fails, the registry stays as it was.
    pub fn init<P: BeansParam, T: Typed, F: FnOnce(P) -> BeanResult<T>>(
        &mut self,
        name: &str,
        cons: F,
    ) -> (done: BeanResult<()>)
        requires
            old(self).wf(),
            forall|param: P| #[trigger] param.accepts(old(self)@) ==> call_requires(cons, (param,)),
        ensures
            final(self).wf(),
            if P::resolvable(old(self)@) {
                exists|param: P, built: BeanResult<T>| #[trigger]
                    call_ensures(cons, (param,), built) && param.accepts(old(self)@)
                        && match built {
                        Err(error) => done == Err::<(), BeanError>(error) && final(self)@ == old(
                            self,
                        )@,
                        Ok(value) => if has_key(old(self)@, name@) {
                            final(self)@ == old(self)@ && (done matches Err(
                                BeanError::AlreadyExists { name: taken },
                            ) && taken@ == name@)
                        } else {
                            final(self)@ == old(self)@.push((name@, value.lift())) && done is Ok
                        },
                    }
            } else {
                final(self)@ == old(self)@ && (done matches Err(error) && P::rejects(
                    old(self)@,
                    error,
                ))
            },
    {
        let built = self.create::<P, T, F>(cons);
        match built {
            Ok(value) => self.insert(name, value),
            Err(error) => Err(error),
        }
    }
}

/// A cursor over all beans of type `T`, for writing. It holds the ids that the
/// type had when it was made and hands out the beans under them one by one.
pub struct BeanMutIter<'a, T> {
    pub beans: &'a mut Beans,
    pub ids: Vec<String>,
    pub next: usize,
    pub _ty: PhantomData<T>,
}

impl<'a, T: Typed> BeanMutIter<'a, T> {
    /// The cursor is valid: the registry is, and the ids are those of its beans
    /// of type `T`.
    pub open spec fn wf(self) -> bool {
        &&& self.beans.wf()
        &&& self.next <= self.ids@.len()
        &&& self.ids@.len() == ids_of(self.beans@, T::tag_spec()).len()
        &&& forall|i: int|
            0 <= i < self.ids@.len() ==> (#[trigger] self.ids@[i])@ == ids_of(
                self.beans@,
                T::tag_spec(),
            )[i]
    }

    /// The ids of the beans that the cursor has not handed out yet.
    pub open spec fn rest(self) -> Seq<Seq<char>> {
        ids_of(self.beans@, T::tag_spec()).skip(self.next as int)
    }

    /// The next bean of the type, for writing, or `None` when all were handed
    /// out. What is written through the reference becomes the bean's value; its
    /// id, its type and every other bean stay as they are.
    pub fn next(&mut self) -> (bean: Option<&mut T>)
        requires
            old(self).wf(),
        ensures
            final(self).wf(),
            *final(final(self).beans) == *final(old(self).beans),
            match bean {
                Some(x) => old(self).rest().len() > 0 && final(self).rest() == old(
                    self,
                ).rest().skip(1) && value_of(old(self).beans@, old(self).rest()[0]) == Some(
                    x.lift(),
                ) && final(self).beans@ == old(self).beans@.update(
                    position(old(self).beans@, old(self).rest()[0]).unwrap(),
                    (old(self).rest()[0], (*final(x)).lift()),
                ),
                None => old(self).rest().len() == 0 && final(self).beans@ == old(self).beans@
                    && final(self).rest() == old(self).rest(),
            },
    {
        if self.next >= self.ids.len() {
            return None;
        }
        let i = self.next;
        let ghost before = self.beans@;
        let ghost tag = T::tag_spec();
        let ghost id = self.ids@[i as int]@;
        proof {
            listed_id_is_held(before, tag, i as int);
            let at = position(before, id).unwrap();
            assert forall|written: T| #![trigger written.lift()]
                ids_of(before.update(at, (id, written.lift())), tag) == ids_of(before, tag) by {
                T::lift_is_tagged(written);
                update_keeps_ids(before, at, written.lift(), tag);
            }
        }
        self.next = i + 1;
        match self.beans.get_mut::<T>(self.ids[i].as_str()) {
            Ok(x) => Some(x),
            Err(_) => None,
        }
    }
}

} // verus!
