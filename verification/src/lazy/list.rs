//! A list based property.
//!
//! A [`ListProperty`] provides an ordered list that is put together from
//! pieces: single values, providers of single values, lists of values, lists of
//! providers and providers of lists. Asking the property asks every provider
//! among its pieces, in order; if one of them is absent, so is the list.

use vstd::prelude::*;
use crate::lazy::provider::{contains_of_both, ProviderSource, Sourced};
use crate::lazy::providers::Provides;

verus! {

/// One piece of a list property.
pub enum ListPropertyItem<T, P, Q> {
    /// A value.
    Just(T),
    /// A provider of a value.
    Provider(P),
    /// Values, in order.
    JustIterator(Vec<T>),
    /// Providers of values, in order.
    ProviderIterator(Vec<P>),
    /// A provider of values in order.
    IteratorProvider(Q),
}

/// The model of a piece: the piece with sequences for its vectors.
pub enum ListItemView<T, P, Q> {
    Just(T),
    Provider(P),
    JustIterator(Seq<T>),
    ProviderIterator(Seq<P>),
    IteratorProvider(Q),
}

impl<T, P, Q> View for ListPropertyItem<T, P, Q> {
    type V = ListItemView<T, P, Q>;

    open spec fn view(&self) -> ListItemView<T, P, Q> {
        match self {
            ListPropertyItem::Just(t) => ListItemView::Just(*t),
            ListPropertyItem::Provider(p) => ListItemView::Provider(*p),
            ListPropertyItem::JustIterator(v) => ListItemView::JustIterator(v@),
            ListPropertyItem::ProviderIterator(ps) => ListItemView::ProviderIterator(ps@),
            ListPropertyItem::IteratorProvider(q) => ListItemView::IteratorProvider(*q),
        }
    }
}

/// Every provider in the piece can be asked.
pub open spec fn item_ready<T, P: Provides<Output = T>, Q: Provides<Output = Vec<T>>>(
    item: ListItemView<T, P, Q>,
) -> bool {
    match item {
        ListItemView::Just(_) => true,
        ListItemView::Provider(p) => p.ready(),
        ListItemView::JustIterator(_) => true,
        ListItemView::ProviderIterator(ps) => all_ready(ps),
        ListItemView::IteratorProvider(q) => q.ready(),
    }
}

/// Every provider can be asked.
pub open spec fn all_ready<T, P: Provides<Output = T>>(providers: Seq<P>) -> bool {
    forall|i: int| 0 <= i < providers.len() ==> (#[trigger] providers[i]).ready()
}

/// `copies` holds a clone of each value of `values`, in order.
pub open spec fn clones_of<T: Clone>(values: Seq<T>, copies: Seq<T>) -> bool {
    copies.len() == values.len() && forall|i: int|
        0 <= i < values.len() ==> cloned(#[trigger] values[i], copies[i])
}

/// `answers` holds an answer of each provider, in order.
pub open spec fn answers_of<T, P: Provides<Output = T>>(
    providers: Seq<P>,
    answers: Seq<T>,
) -> bool {
    answers.len() == providers.len() && forall|i: int|
        0 <= i < providers.len() ==> (#[trigger] providers[i]).yields(Some(answers[i]))
}

/// Some provider may be absent.
pub open spec fn some_absent<T, P: Provides<Output = T>>(providers: Seq<P>) -> bool {
    exists|k: int| 0 <= k < providers.len() && (#[trigger] providers[k]).yields(None)
}

/// `part` is what the piece may add to the list: its values in order, or
/// `None` where a provider in it is absent.
pub open spec fn item_gives<T: Clone, P: Provides<Output = T>, Q: Provides<Output = Vec<T>>>(
    item: ListItemView<T, P, Q>,
    part: Option<Seq<T>>,
) -> bool {
    match item {
        ListItemView::Just(t) => part matches Some(s) && clones_of(seq![t], s),
        ListItemView::Provider(p) => match part {
            Some(s) => s.len() == 1 && p.yields(Some(s[0])),
            None => p.yields(None),
        },
        ListItemView::JustIterator(values) => part matches Some(s) && clones_of(values, s),
        ListItemView::ProviderIterator(providers) => match part {
            Some(s) => answers_of(providers, s),
            None => some_absent(providers),
        },
        ListItemView::IteratorProvider(q) => match part {
            Some(s) => exists|values: Vec<T>| #[trigger] q.yields(Some(values)) && values@ == s,
            None => q.yields(None),
        },
    }
}

/// The list that begins with `head` and goes on with `tail`; absent where the
/// tail is.
pub open spec fn prepend<T>(head: Seq<T>, tail: Option<Seq<T>>) -> Option<Seq<T>> {
    match tail {
        Some(rest) => Some(head + rest),
        None => None,
    }
}

/// `list` is what the pieces may give together: what each piece adds, in the
/// order of the pieces, or `None` from the first piece on that gives `None`.
pub open spec fn gathers<T: Clone, P: Provides<Output = T>, Q: Provides<Output = Vec<T>>>(
    items: Seq<ListItemView<T, P, Q>>,
    list: Option<Seq<T>>,
) -> bool
    decreases items.len(),
{
    if items.len() == 0 {
        list == Some(Seq::<T>::empty())
    } else {
        exists|part: Option<Seq<T>>, tail: Option<Seq<T>>| #[trigger]
            item_gives(items[0], part) && #[trigger] prepend(Seq::<T>::empty(), tail) == tail
                && match part {
                None => list is None,
                Some(head) => gathers(items.skip(1), tail) && list == prepend(head, tail),
            }
    }
}

/// [`gathers`], written out one step.
pub proof fn gathers_unfold<T: Clone, P: Provides<Output = T>, Q: Provides<Output = Vec<T>>>(
    items: Seq<ListItemView<T, P, Q>>,
    list: Option<Seq<T>>,
)
    ensures
        items.len() == 0 ==> (gathers(items, list) <==> list == Some(Seq::<T>::empty())),
        items.len() > 0 ==> (gathers(items, list) <==> exists|
            part: Option<Seq<T>>,
            tail: Option<Seq<T>>,
        | #[trigger]
            item_gives(items[0], part) && #[trigger] prepend(Seq::<T>::empty(), tail) == tail
                && match part {
                None => list is None,
                Some(head) => gathers(items.skip(1), tail) && list == prepend(head, tail),
            }),
{
}

/// What a list property answers, written out: what its pieces gather to.
pub proof fn list_yields<T: Clone, P: Provides<Output = T>, Q: Provides<Output = Vec<T>>>(
    property: ListProperty<T, P, Q>,
    value: Option<Vec<T>>,
)
    ensures
        property.ready() == (forall|i: int|
            0 <= i < property@.len() ==> item_ready(#[trigger] property@[i])),
        property.yields(value) <==> gathers(
            property@,
            match value {
                Some(list) => Some(list@),
                None => None,
            },
        ),
{
}

/// A property that whole collections can be added to.
pub trait AddProperty<T> {
    fn add_all(&mut self, item: T);
}

/// A property which provides an ordered list.
pub struct ListProperty<T, P, Q> {
    shared: Vec<ListPropertyItem<T, P, Q>>,
}

impl<T, P, Q> View for ListProperty<T, P, Q> {
    type V = Seq<ListItemView<T, P, Q>>;

    closed spec fn view(&self) -> Seq<ListItemView<T, P, Q>> {
        Seq::new(self.shared@.len(), |i: int| self.shared@[i]@)
    }
}

/// A clone of each value, in order.
fn clone_all<T: Clone>(values: &Vec<T>) -> (copies: Vec<T>)
    ensures
        clones_of(values@, copies@),
{
    let mut copies: Vec<T> = Vec::new();
    let mut i: usize = 0;
    while i < values.len()
        invariant
            i <= values@.len(),
            copies@.len() == i,
            forall|j: int| 0 <= j < i ==> cloned(#[trigger] values@[j], copies@[j]),
        decreases values@.len() - i,
    {
        copies.push(values[i].clone());
        i += 1;
    }
    copies
}

/// An answer of each provider, in order, or `None` at the first that is absent.
fn ask_all<T, P: Provides<Output = T>>(providers: &Vec<P>) -> (answers: Option<Vec<T>>)
    requires
        forall|i: int| 0 <= i < providers@.len() ==> (#[trigger] providers@[i]).ready(),
    ensures
        match answers {
            Some(all) => answers_of(providers@, all@),
            None => some_absent(providers@),
        },
{
    let mut all: Vec<T> = Vec::new();
    let mut i: usize = 0;
    while i < providers.len()
        invariant
            i <= providers@.len(),
            all@.len() == i,
            forall|j: int| 0 <= j < providers@.len() ==> (#[trigger] providers@[j]).ready(),
            forall|j: int| 0 <= j < i ==> (#[trigger] providers@[j]).yields(Some(all@[j])),
        decreases providers@.len() - i,
    {
        match providers[i].try_get() {
            Some(answer) => {
                all.push(answer);
            },
            None => {
                return None;
            },
        }
        i += 1;
    }
    Some(all)
}

impl<T: Clone, P: Provides<Output = T>, Q: Provides<Output = Vec<T>>> ListPropertyItem<T, P, Q> {
    /// What the piece adds to the list.
    pub fn part(&self) -> (part: Option<Vec<T>>)
        requires
            item_ready(self@),
        ensures
            item_gives(
                self@,
                match part {
                    Some(values) => Some(values@),
                    None => None,
                },
            ),
    {
        match self {
            ListPropertyItem::Just(t) => {
                let mut one: Vec<T> = Vec::new();
                one.push(t.clone());
                assert(clones_of(seq![*t], one@));
                Some(one)
            },
            ListPropertyItem::Provider(p) => match p.try_get() {
                Some(answer) => {
                    let mut one: Vec<T> = Vec::new();
                    one.push(answer);
                    Some(one)
                },
                None => None,
            },
            ListPropertyItem::JustIterator(values) => Some(clone_all(values)),
            ListPropertyItem::ProviderIterator(providers) => {
                assert(all_ready(providers@));
                ask_all(providers)
            },
            ListPropertyItem::IteratorProvider(q) => q.try_get(),
        }
    }
}

impl<T: Clone, P: Provides<Output = T>, Q: Provides<Output = Vec<T>>> ListProperty<T, P, Q> {
    /// A list property without pieces.
    pub fn new() -> (fresh: Self)
        ensures
            fresh@ == Seq::<ListItemView<T, P, Q>>::empty(),
    {
        let fresh = Self { shared: Vec::new() };
        assert(fresh@ =~= Seq::<ListItemView<T, P, Q>>::empty());
        fresh
    }

    /// Sets the value: the values become the only piece.
    pub fn set(&mut self, i: Vec<T>)
        ensures
            final(self)@ == seq![ListItemView::<T, P, Q>::JustIterator(i@)],
    {
        self.shared.clear();
        self.shared.push(ListPropertyItem::JustIterator(i));
        assert(self@ =~= seq![ListItemView::<T, P, Q>::JustIterator(i@)]);
    }

    /// Sets the value from a provider: the provider becomes the only piece.
    pub fn set_from(&mut self, p: Q)
        ensures
            final(self)@ == seq![ListItemView::<T, P, Q>::IteratorProvider(p)],
    {
        self.shared.clear();
        self.shared.push(ListPropertyItem::IteratorProvider(p));
        assert(self@ =~= seq![ListItemView::<T, P, Q>::IteratorProvider(p)]);
    }

    /// Add a value.
    pub fn add(&mut self, v: T)
        ensures
            final(self)@ == old(self)@.push(ListItemView::Just(v)),
    {
        self.shared.push(ListPropertyItem::Just(v));
        assert(self@ =~= old(self)@.push(ListItemView::Just(v)));
    }

    /// Add a value from a provider.
    pub fn add_from(&mut self, provider: P)
        ensures
            final(self)@ == old(self)@.push(ListItemView::Provider(provider)),
    {
        self.shared.push(ListPropertyItem::Provider(provider));
        assert(self@ =~= old(self)@.push(ListItemView::Provider(provider)));
    }

    /// Add all values.
    pub fn add_all(&mut self, items: Vec<T>)
        ensures
            final(self)@ == old(self)@.push(ListItemView::JustIterator(items@)),
    {
        self.shared.push(ListPropertyItem::JustIterator(items));
        assert(self@ =~= old(self)@.push(ListItemView::JustIterator(items@)));
    }

    /// Add all values from a provider of values.
    pub fn add_all_from(&mut self, items: Q)
        ensures
            final(self)@ == old(self)@.push(ListItemView::IteratorProvider(items)),
    {
        self.shared.push(ListPropertyItem::IteratorProvider(items));
        assert(self@ =~= old(self)@.push(ListItemView::IteratorProvider(items)));
    }

    /// Add the values of all the providers.
    pub fn extend(&mut self, providers: Vec<P>)
        ensures
            final(self)@ == old(self)@.push(ListItemView::ProviderIterator(providers@)),
    {
        self.shared.push(ListPropertyItem::ProviderIterator(providers));
        assert(self@ =~= old(self)@.push(ListItemView::ProviderIterator(providers@)));
    }
}

impl<T: Clone, P: Provides<Output = T>, Q: Provides<Output = Vec<T>>> AddProperty<
    Vec<T>,
> for ListProperty<T, P, Q> {
    /// Adds the values as one piece.
    fn add_all(&mut self, item: Vec<T>)
        ensures
            final(self)@ == old(self)@.push(ListItemView::JustIterator(item@)),
    {
        self.shared.push(ListPropertyItem::JustIterator(item));
        assert(self@ =~= old(self)@.push(ListItemView::JustIterator(item@)));
    }
}

impl<T: Clone, P: Provides<Output = T>, Q: Provides<Output = Vec<T>>> Provides for ListProperty<
    T,
    P,
    Q,
> {
    type Output = Vec<T>;

    /// Every provider among the pieces can be asked.
    open spec fn ready(&self) -> bool {
        forall|i: int| 0 <= i < self@.len() ==> item_ready(#[trigger] self@[i])
    }

    /// What the pieces gather to.
    open spec fn yields(&self, value: Option<Vec<T>>) -> bool {
        gathers(
            self@,
            match value {
                Some(list) => Some(list@),
                None => None,
            },
        )
    }

    fn try_get(&self) -> (value: Option<Vec<T>>) {
        let mut ret: Vec<T> = Vec::new();
        let mut i: usize = 0;
        assert(self@.skip(0) =~= self@);
        assert forall|tail: Option<Seq<T>>| #[trigger]
            gathers(self@.skip(0), tail) implies gathers(self@, prepend(ret@, tail)) by {
            match tail {
                Some(rest) => {
                    assert(ret@ + rest =~= rest);
                },
                None => {},
            }
        }
        while i < self.shared.len()
            invariant
                i <= self.shared@.len(),
                self.ready(),
                forall|tail: Option<Seq<T>>| #[trigger]
                    gathers(self@.skip(i as int), tail) ==> gathers(self@, prepend(ret@, tail)),
            decreases self.shared@.len() - i,
        {
            let ghost rest = self@.skip(i as int);
            let ghost before = ret@;
            assert(rest[0] == self@[i as int]);
            assert(self@[i as int] == self.shared@[i as int]@);
            let part = self.shared[i].part();
            match part {
                None => {
                    proof {
                        assert(prepend(Seq::<T>::empty(), None::<Seq<T>>) == None::<Seq<T>>);
                        assert(gathers(rest, None));
                    }
                    return None;
                },
                Some(values) => {
                    let mut values = values;
                    let ghost head = values@;
                    ret.append(&mut values);
                    proof {
                        let next = self@.skip(i + 1);
                        assert(rest.skip(1) =~= next);
                        assert forall|tail: Option<Seq<T>>| #[trigger]
                            gathers(next, tail) implies gathers(self@, prepend(ret@, tail)) by {
                            match tail {
                                Some(more) => {
                                    assert(Seq::<T>::empty() + more =~= more);
                                    assert(before + (head + more) =~= ret@ + more);
                                },
                                None => {},
                            }
                            assert(prepend(Seq::<T>::empty(), tail) == tail);
                            assert(gathers(rest, prepend(head, tail)));
                        }
                    }
                },
            }
            i += 1;
        }
        proof {
            assert(self@.skip(i as int).len() == 0);
            assert(gathers(self@.skip(i as int), Some(Seq::<T>::empty())));
            assert(ret@ + Seq::<T>::empty() =~= ret@);
        }
        Some(ret)
    }
}

/// `source` is one of the places that the values of the piece come from: those
/// of its provider, or of one of its providers.
pub open spec fn item_origin<T, P: Sourced, Q: Sourced>(
    item: ListItemView<T, P, Q>,
    source: ProviderSource,
) -> bool {
    match item {
        ListItemView::Just(_) => false,
        ListItemView::Provider(p) => p.origin(source),
        ListItemView::JustIterator(_) => false,
        ListItemView::ProviderIterator(ps) => any_origin(ps, source),
        ListItemView::IteratorProvider(q) => q.origin(source),
    }
}

/// `source` is one of the places that the value of one of the providers comes
/// from.
pub open spec fn any_origin<P: Sourced>(providers: Seq<P>, source: ProviderSource) -> bool {
    exists|k: int| 0 <= k < providers.len() && (#[trigger] providers[k]).origin(source)
}

/// The sources of all the providers.
fn sources_of_all<P: Sourced>(providers: &Vec<P>) -> (found: Vec<ProviderSource>)
    ensures
        forall|source: ProviderSource| found@.contains(source) <==> any_origin(providers@, source),
{
    let mut found: Vec<ProviderSource> = Vec::new();
    let mut i: usize = 0;
    while i < providers.len()
        invariant
            i <= providers@.len(),
            forall|source: ProviderSource|
                found@.contains(source) <==> any_origin(providers@.take(i as int), source),
        decreases providers@.len() - i,
    {
        let mut more = providers[i].sources();
        let ghost left = found@;
        let ghost right = more@;
        found.append(&mut more);
        proof {
            let before = providers@.take(i as int);
            let after = providers@.take(i + 1);
            assert forall|source: ProviderSource|
                found@.contains(source) <==> any_origin(after, source) by {
                contains_of_both(left, right, source);
                if any_origin(before, source) {
                    let k = choose|k: int|
                        0 <= k < before.len() && (#[trigger] before[k]).origin(source);
                    assert(after[k].origin(source));
                }
                if providers@[i as int].origin(source) {
                    assert(after[i as int].origin(source));
                }
                if any_origin(after, source) {
                    let k = choose|k: int|
                        0 <= k < after.len() && (#[trigger] after[k]).origin(source);
                    if k < i {
                        assert(before[k].origin(source));
                    }
                }
            }
        }
        i += 1;
    }
    proof {
        assert(providers@.take(i as int) =~= providers@);
    }
    found
}

impl<T, P: Sourced, Q: Sourced> ListPropertyItem<T, P, Q> {
    /// The sources of the values of the piece.
    pub fn sources(&self) -> (found: Vec<ProviderSource>)
        ensures
            forall|source: ProviderSource| found@.contains(source) <==> item_origin(self@, source),
    {
        match self {
            ListPropertyItem::Just(_) => Vec::new(),
            ListPropertyItem::Provider(p) => p.sources(),
            ListPropertyItem::JustIterator(_) => Vec::new(),
            ListPropertyItem::ProviderIterator(ps) => sources_of_all(ps),
            ListPropertyItem::IteratorProvider(q) => q.sources(),
        }
    }
}

impl<T, P: Sourced, Q: Sourced> Sourced for ListProperty<T, P, Q> {
    /// Where the values of any piece come from.
    open spec fn origin(&self, source: ProviderSource) -> bool {
        exists|i: int| 0 <= i < self@.len() && #[trigger] item_origin(self@[i], source)
    }

    fn sources(&self) -> (found: Vec<ProviderSource>) {
        let mut found: Vec<ProviderSource> = Vec::new();
        let mut i: usize = 0;
        while i < self.shared.len()
            invariant
                i <= self.shared@.len(),
                forall|source: ProviderSource|
                    found@.contains(source) <==> exists|j: int|
                        0 <= j < i && #[trigger] item_origin(self@[j], source),
            decreases self.shared@.len() - i,
        {
            let mut more = self.shared[i].sources();
            let ghost left = found@;
            let ghost right = more@;
            found.append(&mut more);
            proof {
                assert(self@[i as int] == self.shared@[i as int]@);
                assert forall|source: ProviderSource|
                    found@.contains(source) <==> exists|j: int|
                        0 <= j < i + 1 && #[trigger] item_origin(self@[j], source) by {
                    contains_of_both(left, right, source);
                    if left.contains(source) {
                        let j = choose|j: int|
                            0 <= j < i && #[trigger] item_origin(self@[j], source);
                        assert(0 <= j < i + 1 && item_origin(self@[j], source));
                    }
                    if right.contains(source) {
                        assert(item_origin(self@[i as int], source));
                    }
                    if exists|j: int| 0 <= j < i + 1 && #[trigger] item_origin(self@[j], source) {
                        let j = choose|j: int|
                            0 <= j < i + 1 && #[trigger] item_origin(self@[j], source);
                        if j < i {
                            assert(left.contains(source));
                        } else {
                            assert(right.contains(source));
                        }
                    }
                }
            }
            i += 1;
        }
        found
    }
}

} // verus!
