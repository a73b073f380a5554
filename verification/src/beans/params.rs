//! The dependencies that a constructor declares.
//!
//! A constructor takes one parameter: a dependency, or a tuple of them. The
//! registry resolves the parameter before it calls the constructor: each
//! dependency is prepared (`init_state`) and then fetched (`get_param`), from
//! left to right, and the first one that cannot be resolved gives the error of
//! the whole resolution. Resolving only reads the registry.

use vstd::prelude::*;
use core::marker::PhantomData;
use crate::beans::registry::{ids_of, values_of};
use crate::beans::registry::{BeanError, BeanResult, Beans};
use crate::entries::Pairs;
use crate::text::owned;
use crate::value::{tag_name, Typed};

verus! {

/// A dependency that the registry can resolve.
pub trait BeansParam: Sized {
    /// What is prepared for a dependency before it is fetched.
    type State;

    /// The registry can resolve the dependency.
    spec fn resolvable(beans: Pairs) -> bool;

    /// `self` is what the dependency resolves to in the registry.
    spec fn accepts(self, beans: Pairs) -> bool;

    /// `error` is the error that the registry answers with where it cannot
    /// resolve the dependency.
    spec fn rejects(beans: Pairs, error: BeanError) -> bool;

    /// `state` is what preparing the dependency against the registry may give.
    /// A dependency that does not say more may be prepared as anything.
    open spec fn prepared(beans: Pairs, state: Self::State) -> bool {
        true
    }

    /// Prepares the dependency. The registry is only read.
    fn init_state(beans: &Beans) -> (state: Self::State)
        ensures
            Self::prepared(beans@, state),
    ;

    /// Fetches the dependency.
    fn get_param(state: &mut Self::State, beans: &Beans) -> (param: BeanResult<Self>)
        requires
            beans.wf(),
        ensures
            match param {
                Ok(resolved) => Self::resolvable(beans@) && resolved.accepts(beans@),
                Err(error) => !Self::resolvable(beans@) && Self::rejects(beans@, error),
            },
    ;
}

/// Exactly one bean of type `T`, found by its type.
///
/// Resolution fails with `NotFound` if the registry holds no bean of the type,
/// and with `Custom` if it holds more than one: the dependency never picks
/// among several candidates.
pub struct Single<T>(pub T);

/// The message of the error for a type with more than one bean.
pub open spec fn ambiguous(name: Seq<char>) -> Seq<char> {
    "more than one bean of type "@ + name
}

impl<T: Typed> BeansParam for Single<T> {
    type State = ();

    open spec fn resolvable(beans: Pairs) -> bool {
        values_of(beans, T::tag_spec()).len() == 1
    }

    open spec fn accepts(self, beans: Pairs) -> bool {
        self.0.lift() == values_of(beans, T::tag_spec())[0]
    }

    open spec fn rejects(beans: Pairs, error: BeanError) -> bool {
        if values_of(beans, T::tag_spec()).len() == 0 {
            error matches BeanError::NotFound { name } && name@ == tag_name(T::tag_spec())
        } else {
            error matches BeanError::Custom { error: message } && message@ == ambiguous(
                tag_name(T::tag_spec()),
            )
        }
    }

    fn init_state(beans: &Beans) -> Self::State {
    }

    fn get_param(state: &mut Self::State, beans: &Beans) -> (param: BeanResult<Self>) {
        let mut all = beans.copies_of::<T>();
        if all.len() == 1 {
            let only = all.pop().unwrap();
            Ok(Single(only))
        } else if all.len() == 0 {
            Err(BeanError::NotFound { name: owned(T::tag().name()) })
        } else {
            Err(
                BeanError::Custom {
                    error: owned("more than one bean of type ").concat(T::tag().name()),
                },
            )
        }
    }
}

/// All beans of type `T` at the moment of resolution, with their ids, in
/// insertion order.
pub struct Multi<T> {
    ids: Vec<String>,
    items: Vec<T>,
}

impl<T: Typed> View for Multi<T> {
    type V = Seq<(Seq<char>, T)>;

    closed spec fn view(&self) -> Seq<(Seq<char>, T)> {
        Seq::new(self.items@.len(), |i: int| (self.ids@[i]@, self.items@[i]))
    }
}

impl<T> Multi<T> {
    /// The query holds as many ids as beans.
    #[verifier::type_invariant]
    spec fn inv(self) -> bool {
        self.ids@.len() == self.items@.len()
    }
}

impl<T: Typed> Multi<T> {
    /// The number of beans in the query.
    pub fn len(&self) -> (n: usize)
        ensures
            n == self@.len(),
    {
        self.items.len()
    }

    /// Gets the bean with the id.
    ///
    /// Fails with `NotFound` if the query holds no bean with the id.
    pub fn get(&self, id: &str) -> (found: BeanResult<&T>)
        ensures
            match found {
                Ok(bean) => exists|i: int|
                    0 <= i < self@.len() && #[trigger] self@[i] == (id@, *bean),
                Err(error) => (error matches BeanError::NotFound { name } && name@ == id@)
                    && forall|i: int| 0 <= i < self@.len() ==> (#[trigger] self@[i]).0 != id@,
            },
    {
        proof {
            use_type_invariant(self);
        }
        let wanted = owned(id);
        let mut i: usize = 0;
        while i < self.items.len()
            invariant
                wanted@ == id@,
                i <= self.items@.len(),
                self.ids@.len() == self.items@.len(),
                forall|j: int| 0 <= j < i ==> (#[trigger] self@[j]).0 != id@,
            decreases self.items@.len() - i,
        {
            if self.ids[i] == wanted {
                assert(self@[i as int] == (id@, self.items@[i as int]));
                return Ok(&self.items[i]);
            }
            i += 1;
        }
        Err(BeanError::NotFound { name: owned(id) })
    }

    /// An iterator over the beans of the query, oldest first.
    pub fn iter(&self) -> (iter: BeanQueryIter<'_, T>)
        ensures
            iter.rest() == self@.map_values(|pair: (Seq<char>, T)| pair.1),
    {
        proof {
            use_type_invariant(self);
        }
        let iter = BeanQueryIter::new(&self.items);
        assert(iter.rest() =~= self@.map_values(|pair: (Seq<char>, T)| pair.1));
        iter
    }
}

impl<T: Typed> BeansParam for Multi<T> {
    type State = ();

    open spec fn resolvable(beans: Pairs) -> bool {
        true
    }

    open spec fn accepts(self, beans: Pairs) -> bool {
        &&& self@.len() == ids_of(beans, T::tag_spec()).len()
        &&& forall|i: int|
            0 <= i < self@.len() ==> (#[trigger] self@[i]).0 == ids_of(beans, T::tag_spec())[i]
                && self@[i].1.lift() == values_of(beans, T::tag_spec())[i]
    }

    open spec fn rejects(beans: Pairs, error: BeanError) -> bool {
        false
    }

    fn init_state(beans: &Beans) -> Self::State {
    }

    fn get_param(state: &mut Self::State, beans: &Beans) -> (param: BeanResult<Self>) {
        let ids = beans.get_ids_of::<T>();
        let items = beans.copies_of::<T>();
        let query = Multi { ids, items };
        Ok(query)
    }
}

/// An iterator over the beans of a query.
pub struct BeanQueryIter<'a, T> {
    items: &'a Vec<T>,
    next: usize,
}

impl<'a, T> BeanQueryIter<'a, T> {
    /// The iterator has not run past the end.
    #[verifier::type_invariant]
    spec fn inv(self) -> bool {
        self.next <= self.items@.len()
    }

    /// The beans that the iterator has not handed out yet.
    pub closed spec fn rest(self) -> Seq<T> {
        self.items@.skip(self.next as int)
    }

    /// An iterator over the items, first item first.
    pub fn new(items: &'a Vec<T>) -> (iter: Self)
        ensures
            iter.rest() == items@,
    {
        let iter = BeanQueryIter { items, next: 0 };
        assert(iter.rest() =~= items@);
        iter
    }

    /// The next bean, or `None` when all were handed out.
    pub fn next(&mut self) -> (bean: Option<&'a T>)
        ensures
            match bean {
                Some(item) => old(self).rest().len() > 0 && *item == old(self).rest()[0]
                    && final(self).rest() == old(self).rest().skip(1),
                None => old(self).rest().len() == 0 && final(self).rest() == old(self).rest(),
            },
    {
        proof {
            use_type_invariant(&*self);
        }
        if self.next < self.items.len() {
            let item = &self.items[self.next];
            self.next = self.next + 1;
            assert(self.rest() =~= old(self).rest().skip(1));
            Some(item)
        } else {
            None
        }
    }
}

/// A set of dependencies that resolves as the dependencies in it do.
pub struct BeanParamSet<T>(pub T);

impl<T: BeansParam> BeansParam for BeanParamSet<T> {
    type State = T::State;

    open spec fn resolvable(beans: Pairs) -> bool {
        T::resolvable(beans)
    }

    open spec fn accepts(self, beans: Pairs) -> bool {
        self.0.accepts(beans)
    }

    open spec fn rejects(beans: Pairs, error: BeanError) -> bool {
        T::rejects(beans, error)
    }

    /// What preparing the dependencies in the set may give.
    open spec fn prepared(beans: Pairs, state: Self::State) -> bool {
        T::prepared(beans, state)
    }

    fn init_state(beans: &Beans) -> (state: Self::State) {
        T::init_state(beans)
    }

    fn get_param(state: &mut Self::State, beans: &Beans) -> (param: BeanResult<Self>) {
        match T::get_param(state, beans) {
            Ok(resolved) => Ok(BeanParamSet(resolved)),
            Err(error) => Err(error),
        }
    }
}

/// A dependency on the bean with a given id.
pub struct IdBeans<T>(pub &'static str, pub PhantomData<T>);

/// Marks a dependency that was made from a function's arguments.
pub struct FromFunction<Arg>(pub PhantomData<Arg>);

/// Data that a query over the registry can fetch: the types that a bean can be
/// stored at.
pub trait QueryData {
}

/// Query data that only reads the registry.
pub trait ReadOnlyQueryData: QueryData {
}

impl<T: Typed> QueryData for T {
}

impl<T: Typed> ReadOnlyQueryData for T {
}

impl BeansParam for () {
    type State = ();

    open spec fn resolvable(beans: Pairs) -> bool {
        true
    }

    open spec fn accepts(self, beans: Pairs) -> bool {
        true
    }

    open spec fn rejects(beans: Pairs, error: BeanError) -> bool {
        false
    }

    fn init_state(beans: &Beans) -> Self::State {
    }

    fn get_param(state: &mut Self::State, beans: &Beans) -> (param: BeanResult<Self>) {
        Ok(())
    }
}

impl<T1: BeansParam> BeansParam for (T1,) {
    type State = (T1::State,);

    open spec fn resolvable(beans: Pairs) -> bool {
        &&& T1::resolvable(beans)
    }

    open spec fn accepts(self, beans: Pairs) -> bool {
        &&& self.0.accepts(beans)
    }

    open spec fn rejects(beans: Pairs, error: BeanError) -> bool {
        if !T1::resolvable(beans) {
            T1::rejects(beans, error)
        } else {
            false
        }
    }

    /// Each part of the state is what preparing its dependency may give.
    open spec fn prepared(beans: Pairs, state: Self::State) -> bool {
        &&& T1::prepared(beans, state.0)
    }

    fn init_state(beans: &Beans) -> (state: Self::State) {
        (T1::init_state(beans),)
    }

    fn get_param(state: &mut Self::State, beans: &Beans) -> (param: BeanResult<Self>) {
        let param1 = match T1::get_param(&mut state.0, beans) {
            Ok(resolved) => resolved,
            Err(error) => {
                return Err(error);
            },
        };
        Ok((param1,))
    }
}

impl<T1: BeansParam, T2: BeansParam> BeansParam for (T1, T2) {
    type State = (T1::State, T2::State);

    open spec fn resolvable(beans: Pairs) -> bool {
        &&& T1::resolvable(beans)
        &&& T2::resolvable(beans)
    }

    open spec fn accepts(self, beans: Pairs) -> bool {
        &&& self.0.accepts(beans)
        &&& self.1.accepts(beans)
    }

    open spec fn rejects(beans: Pairs, error: BeanError) -> bool {
        if !T1::resolvable(beans) {
            T1::rejects(beans, error)
        } else if !T2::resolvable(beans) {
            T2::rejects(beans, error)
        } else {
            false
        }
    }

    /// Each part of the state is what preparing its dependency may give.
    open spec fn prepared(beans: Pairs, state: Self::State) -> bool {
        &&& T1::prepared(beans, state.0)
        &&& T2::prepared(beans, state.1)
    }

    fn init_state(beans: &Beans) -> (state: Self::State) {
        (T1::init_state(beans), T2::init_state(beans))
    }

    fn get_param(state: &mut Self::State, beans: &Beans) -> (param: BeanResult<Self>) {
        let param1 = match T1::get_param(&mut state.0, beans) {
            Ok(resolved) => resolved,
            Err(error) => {
                return Err(error);
            },
        };
        let param2 = match T2::get_param(&mut state.1, beans) {
            Ok(resolved) => resolved,
            Err(error) => {
                return Err(error);
            },
        };
        Ok((param1, param2))
    }
}

impl<T1: BeansParam, T2: BeansParam, T3: BeansParam> BeansParam for (T1, T2, T3) {
    type State = (T1::State, T2::State, T3::State);

    open spec fn resolvable(beans: Pairs) -> bool {
        &&& T1::resolvable(beans)
        &&& T2::resolvable(beans)
        &&& T3::resolvable(beans)
    }

    open spec fn accepts(self, beans: Pairs) -> bool {
        &&& self.0.accepts(beans)
        &&& self.1.accepts(beans)
        &&& self.2.accepts(beans)
    }

    open spec fn rejects(beans: Pairs, error: BeanError) -> bool {
        if !T1::resolvable(beans) {
            T1::rejects(beans, error)
        } else if !T2::resolvable(beans) {
            T2::rejects(beans, error)
        } else if !T3::resolvable(beans) {
            T3::rejects(beans, error)
        } else {
            false
        }
    }

    /// Each part of the state is what preparing its dependency may give.
    open spec fn prepared(beans: Pairs, state: Self::State) -> bool {
        &&& T1::prepared(beans, state.0)
        &&& T2::prepared(beans, state.1)
        &&& T3::prepared(beans, state.2)
    }

    fn init_state(beans: &Beans) -> (state: Self::State) {
        (T1::init_state(beans), T2::init_state(beans), T3::init_state(beans))
    }

    fn get_param(state: &mut Self::State, beans: &Beans) -> (param: BeanResult<Self>) {
        let param1 = match T1::get_param(&mut state.0, beans) {
            Ok(resolved) => resolved,
            Err(error) => {
                return Err(error);
            },
        };
        let param2 = match T2::get_param(&mut state.1, beans) {
            Ok(resolved) => resolved,
            Err(error) => {
                return Err(error);
            },
        };
        let param3 = match T3::get_param(&mut state.2, beans) {
            Ok(resolved) => resolved,
            Err(error) => {
                return Err(error);
            },
        };
        Ok((param1, param2, param3))
    }
}

impl<T1: BeansParam, T2: BeansParam, T3: BeansParam, T4: BeansParam> BeansParam for (
    T1, T2, T3, T4,
) {
    type State = (T1::State, T2::State, T3::State, T4::State);

    open spec fn resolvable(beans: Pairs) -> bool {
        &&& T1::resolvable(beans)
        &&& T2::resolvable(beans)
        &&& T3::resolvable(beans)
        &&& T4::resolvable(beans)
    }

    open spec fn accepts(self, beans: Pairs) -> bool {
        &&& self.0.accepts(beans)
        &&& self.1.accepts(beans)
        &&& self.2.accepts(beans)
        &&& self.3.accepts(beans)
    }

    open spec fn rejects(beans: Pairs, error: BeanError) -> bool {
        if !T1::resolvable(beans) {
            T1::rejects(beans, error)
        } else if !T2::resolvable(beans) {
            T2::rejects(beans, error)
        } else if !T3::resolvable(beans) {
            T3::rejects(beans, error)
        } else if !T4::resolvable(beans) {
            T4::rejects(beans, error)
        } else {
            false
        }
    }

    /// Each part of the state is what preparing its dependency may give.
    open spec fn prepared(beans: Pairs, state: Self::State) -> bool {
        &&& T1::prepared(beans, state.0)
        &&& T2::prepared(beans, state.1)
        &&& T3::prepared(beans, state.2)
        &&& T4::prepared(beans, state.3)
    }

    fn init_state(beans: &Beans) -> (state: Self::State) {
        (T1::init_state(beans), T2::init_state(beans), T3::init_state(beans), T4::init_state(beans))
    }

    fn get_param(state: &mut Self::State, beans: &Beans) -> (param: BeanResult<Self>) {
        let param1 = match T1::get_param(&mut state.0, beans) {
            Ok(resolved) => resolved,
            Err(error) => {
                return Err(error);
            },
        };
        let param2 = match T2::get_param(&mut state.1, beans) {
            Ok(resolved) => resolved,
            Err(error) => {
                return Err(error);
            },
        };
        let param3 = match T3::get_param(&mut state.2, beans) {
            Ok(resolved) => resolved,
            Err(error) => {
                return Err(error);
            },
        };
        let param4 = match T4::get_param(&mut state.3, beans) {
            Ok(resolved) => resolved,
            Err(error) => {
                return Err(error);
            },
        };
        Ok((param1, param2, param3, param4))
    }
}

impl<
    T1: BeansParam, T2: BeansParam, T3: BeansParam, T4: BeansParam, T5: BeansParam,
> BeansParam for (
    T1, T2, T3, T4, T5,
) {
    type State = (
        T1::State, T2::State, T3::State, T4::State, T5::State,
    );

    open spec fn resolvable(beans: Pairs) -> bool {
        &&& T1::resolvable(beans)
        &&& T2::resolvable(beans)
        &&& T3::resolvable(beans)
        &&& T4::resolvable(beans)
        &&& T5::resolvable(beans)
    }

    open spec fn accepts(self, beans: Pairs) -> bool {
        &&& self.0.accepts(beans)
        &&& self.1.accepts(beans)
        &&& self.2.accepts(beans)
        &&& self.3.accepts(beans)
        &&& self.4.accepts(beans)
    }

    open spec fn rejects(beans: Pairs, error: BeanError) -> bool {
        if !T1::resolvable(beans) {
            T1::rejects(beans, error)
        } else if !T2::resolvable(beans) {
            T2::rejects(beans, error)
        } else if !T3::resolvable(beans) {
            T3::rejects(beans, error)
        } else if !T4::resolvable(beans) {
            T4::rejects(beans, error)
        } else if !T5::resolvable(beans) {
            T5::rejects(beans, error)
        } else {
            false
        }
    }

    /// Each part of the state is what preparing its dependency may give.
    open spec fn prepared(beans: Pairs, state: Self::State) -> bool {
        &&& T1::prepared(beans, state.0)
        &&& T2::prepared(beans, state.1)
        &&& T3::prepared(beans, state.2)
        &&& T4::prepared(beans, state.3)
        &&& T5::prepared(beans, state.4)
    }

    fn init_state(beans: &Beans) -> (state: Self::State) {
        (
            T1::init_state(beans), T2::init_state(beans), T3::init_state(beans),
            T4::init_state(beans), T5::init_state(beans),
        )
    }

    fn get_param(state: &mut Self::State, beans: &Beans) -> (param: BeanResult<Self>) {
        let param1 = match T1::get_param(&mut state.0, beans) {
            Ok(resolved) => resolved,
            Err(error) => {
                return Err(error);
            },
        };
        let param2 = match T2::get_param(&mut state.1, beans) {
            Ok(resolved) => resolved,
            Err(error) => {
                return Err(error);
            },
        };
        let param3 = match T3::get_param(&mut state.2, beans) {
            Ok(resolved) => resolved,
            Err(error) => {
                return Err(error);
            },
        };
        let param4 = match T4::get_param(&mut state.3, beans) {
            Ok(resolved) => resolved,
            Err(error) => {
                return Err(error);
            },
        };
        let param5 = match T5::get_param(&mut state.4, beans) {
            Ok(resolved) => resolved,
            Err(error) => {
                return Err(error);
            },
        };
        Ok((
            param1, param2, param3, param4, param5,
        ))
    }
}

impl<
    T1: BeansParam, T2: BeansParam, T3: BeansParam, T4: BeansParam, T5: BeansParam,
    T6: BeansParam,
> BeansParam for (
    T1, T2, T3, T4, T5, T6,
) {
    type State = (
        T1::State, T2::State, T3::State, T4::State, T5::State, T6::State,
    );

    open spec fn resolvable(beans: Pairs) -> bool {
        &&& T1::resolvable(beans)
        &&& T2::resolvable(beans)
        &&& T3::resolvable(beans)
        &&& T4::resolvable(beans)
        &&& T5::resolvable(beans)
        &&& T6::resolvable(beans)
    }

    open spec fn accepts(self, beans: Pairs) -> bool {
        &&& self.0.accepts(beans)
        &&& self.1.accepts(beans)
        &&& self.2.accepts(beans)
        &&& self.3.accepts(beans)
        &&& self.4.accepts(beans)
        &&& self.5.accepts(beans)
    }

    open spec fn rejects(beans: Pairs, error: BeanError) -> bool {
        if !T1::resolvable(beans) {
            T1::rejects(beans, error)
        } else if !T2::resolvable(beans) {
            T2::rejects(beans, error)
        } else if !T3::resolvable(beans) {
            T3::rejects(beans, error)
        } else if !T4::resolvable(beans) {
            T4::rejects(beans, error)
        } else if !T5::resolvable(beans) {
            T5::rejects(beans, error)
        } else if !T6::resolvable(beans) {
            T6::rejects(beans, error)
        } else {
            false
        }
    }

    /// Each part of the state is what preparing its dependency may give.
    open spec fn prepared(beans: Pairs, state: Self::State) -> bool {
        &&& T1::prepared(beans, state.0)
        &&& T2::prepared(beans, state.1)
        &&& T3::prepared(beans, state.2)
        &&& T4::prepared(beans, state.3)
        &&& T5::prepared(beans, state.4)
        &&& T6::prepared(beans, state.5)
    }

    fn init_state(beans: &Beans) -> (state: Self::State) {
        (
            T1::init_state(beans), T2::init_state(beans), T3::init_state(beans),
            T4::init_state(beans), T5::init_state(beans), T6::init_state(beans),
        )
    }

    fn get_param(state: &mut Self::State, beans: &Beans) -> (param: BeanResult<Self>) {
        let param1 = match T1::get_param(&mut state.0, beans) {
            Ok(resolved) => resolved,
            Err(error) => {
                return Err(error);
            },
        };
        let param2 = match T2::get_param(&mut state.1, beans) {
            Ok(resolved) => resolved,
            Err(error) => {
                return Err(error);
            },
        };
        let param3 = match T3::get_param(&mut state.2, beans) {
            Ok(resolved) => resolved,
            Err(error) => {
                return Err(error);
            },
        };
        let param4 = match T4::get_param(&mut state.3, beans) {
            Ok(resolved) => resolved,
            Err(error) => {
                return Err(error);
            },
        };
        let param5 = match T5::get_param(&mut state.4, beans) {
            Ok(resolved) => resolved,
            Err(error) => {
                return Err(error);
            },
        };
        let param6 = match T6::get_param(&mut state.5, beans) {
            Ok(resolved) => resolved,
            Err(error) => {
                return Err(error);
            },
        };
        Ok((
            param1, param2, param3, param4, param5, param6,
        ))
    }
}

impl<
    T1: BeansParam, T2: BeansParam, T3: BeansParam, T4: BeansParam, T5: BeansParam,
    T6: BeansParam, T7: BeansParam,
> BeansParam for (
    T1, T2, T3, T4, T5, T6, T7,
) {
    type State = (
        T1::State, T2::State, T3::State, T4::State, T5::State, T6::State, T7::State,
    );

    open spec fn resolvable(beans: Pairs) -> bool {
        &&& T1::resolvable(beans)
        &&& T2::resolvable(beans)
        &&& T3::resolvable(beans)
        &&& T4::resolvable(beans)
        &&& T5::resolvable(beans)
        &&& T6::resolvable(beans)
        &&& T7::resolvable(beans)
    }

    open spec fn accepts(self, beans: Pairs) -> bool {
        &&& self.0.accepts(beans)
        &&& self.1.accepts(beans)
        &&& self.2.accepts(beans)
        &&& self.3.accepts(beans)
        &&& self.4.accepts(beans)
        &&& self.5.accepts(beans)
        &&& self.6.accepts(beans)
    }

    open spec fn rejects(beans: Pairs, error: BeanError) -> bool {
        if !T1::resolvable(beans) {
            T1::rejects(beans, error)
        } else if !T2::resolvable(beans) {
            T2::rejects(beans, error)
        } else if !T3::resolvable(beans) {
            T3::rejects(beans, error)
        } else if !T4::resolvable(beans) {
            T4::rejects(beans, error)
        } else if !T5::resolvable(beans) {
            T5::rejects(beans, error)
        } else if !T6::resolvable(beans) {
            T6::rejects(beans, error)
        } else if !T7::resolvable(beans) {
            T7::rejects(beans, error)
        } else {
            false
        }
    }

    /// Each part of the state is what preparing its dependency may give.
    open spec fn prepared(beans: Pairs, state: Self::State) -> bool {
        &&& T1::prepared(beans, state.0)
        &&& T2::prepared(beans, state.1)
        &&& T3::prepared(beans, state.2)
        &&& T4::prepared(beans, state.3)
        &&& T5::prepared(beans, state.4)
        &&& T6::prepared(beans, state.5)
        &&& T7::prepared(beans, state.6)
    }

    fn init_state(beans: &Beans) -> (state: Self::State) {
        (
            T1::init_state(beans), T2::init_state(beans), T3::init_state(beans),
            T4::init_state(beans), T5::init_state(beans), T6::init_state(beans),
            T7::init_state(beans),
        )
    }

    fn get_param(state: &mut Self::State, beans: &Beans) -> (param: BeanResult<Self>) {
        let param1 = match T1::get_param(&mut state.0, beans) {
            Ok(resolved) => resolved,
            Err(error) => {
                return Err(error);
            },
        };
        let param2 = match T2::get_param(&mut state.1, beans) {
            Ok(resolved) => resolved,
            Err(error) => {
                return Err(error);
            },
        };
        let param3 = match T3::get_param(&mut state.2, beans) {
            Ok(resolved) => resolved,
            Err(error) => {
                return Err(error);
            },
        };
        let param4 = match T4::get_param(&mut state.3, beans) {
            Ok(resolved) => resolved,
            Err(error) => {
                return Err(error);
            },
        };
        let param5 = match T5::get_param(&mut state.4, beans) {
            Ok(resolved) => resolved,
            Err(error) => {
                return Err(error);
            },
        };
        let param6 = match T6::get_param(&mut state.5, beans) {
            Ok(resolved) => resolved,
            Err(error) => {
                return Err(error);
            },
        };
        let param7 = match T7::get_param(&mut state.6, beans) {
            Ok(resolved) => resolved,
            Err(error) => {
                return Err(error);
            },
        };
        Ok((
            param1, param2, param3, param4, param5, param6, param7,
        ))
    }
}

impl<
    T1: BeansParam, T2: BeansParam, T3: BeansParam, T4: BeansParam, T5: BeansParam,
    T6: BeansParam, T7: BeansParam, T8: BeansParam,
> BeansParam for (
    T1, T2, T3, T4, T5, T6, T7, T8,
) {
    type State = (
        T1::State, T2::State, T3::State, T4::State, T5::State, T6::State, T7::State, T8::State,
    );

    open spec fn resolvable(beans: Pairs) -> bool {
        &&& T1::resolvable(beans)
        &&& T2::resolvable(beans)
        &&& T3::resolvable(beans)
        &&& T4::resolvable(beans)
        &&& T5::resolvable(beans)
        &&& T6::resolvable(beans)
        &&& T7::resolvable(beans)
        &&& T8::resolvable(beans)
    }

    open spec fn accepts(self, beans: Pairs) -> bool {
        &&& self.0.accepts(beans)
        &&& self.1.accepts(beans)
        &&& self.2.accepts(beans)
        &&& self.3.accepts(beans)
        &&& self.4.accepts(beans)
        &&& self.5.accepts(beans)
        &&& self.6.accepts(beans)
        &&& self.7.accepts(beans)
    }

    open spec fn rejects(beans: Pairs, error: BeanError) -> bool {
        if !T1::resolvable(beans) {
            T1::rejects(beans, error)
        } else if !T2::resolvable(beans) {
            T2::rejects(beans, error)
        } else if !T3::resolvable(beans) {
            T3::rejects(beans, error)
        } else if !T4::resolvable(beans) {
            T4::rejects(beans, error)
        } else if !T5::resolvable(beans) {
            T5::rejects(beans, error)
        } else if !T6::resolvable(beans) {
            T6::rejects(beans, error)
        } else if !T7::resolvable(beans) {
            T7::rejects(beans, error)
        } else if !T8::resolvable(beans) {
            T8::rejects(beans, error)
        } else {
            false
        }
    }

    /// Each part of the state is what preparing its dependency may give.
    open spec fn prepared(beans: Pairs, state: Self::State) -> bool {
        &&& T1::prepared(beans, state.0)
        &&& T2::prepared(beans, state.1)
        &&& T3::prepared(beans, state.2)
        &&& T4::prepared(beans, state.3)
        &&& T5::prepared(beans, state.4)
        &&& T6::prepared(beans, state.5)
        &&& T7::prepared(beans, state.6)
        &&& T8::prepared(beans, state.7)
    }

    fn init_state(beans: &Beans) -> (state: Self::State) {
        (
            T1::init_state(beans), T2::init_state(beans), T3::init_state(beans),
            T4::init_state(beans), T5::init_state(beans), T6::init_state(beans),
            T7::init_state(beans), T8::init_state(beans),
        )
    }

    fn get_param(state: &mut Self::State, beans: &Beans) -> (param: BeanResult<Self>) {
        let param1 = match T1::get_param(&mut state.0, beans) {
            Ok(resolved) => resolved,
            Err(error) => {
                return Err(error);
            },
        };
        let param2 = match T2::get_param(&mut state.1, beans) {
            Ok(resolved) => resolved,
            Err(error) => {
                return Err(error);
            },
        };
        let param3 = match T3::get_param(&mut state.2, beans) {
            Ok(resolved) => resolved,
            Err(error) => {
                return Err(error);
            },
        };
        let param4 = match T4::get_param(&mut state.3, beans) {
            Ok(resolved) => resolved,
            Err(error) => {
                return Err(error);
            },
        };
        let param5 = match T5::get_param(&mut state.4, beans) {
            Ok(resolved) => resolved,
            Err(error) => {
                return Err(error);
            },
        };
        let param6 = match T6::get_param(&mut state.5, beans) {
            Ok(resolved) => resolved,
            Err(error) => {
                return Err(error);
            },
        };
        let param7 = match T7::get_param(&mut state.6, beans) {
            Ok(resolved) => resolved,
            Err(error) => {
                return Err(error);
            },
        };
        let param8 = match T8::get_param(&mut state.7, beans) {
            Ok(resolved) => resolved,
            Err(error) => {
                return Err(error);
            },
        };
        Ok((
            param1, param2, param3, param4, param5, param6, param7, param8,
        ))
    }
}

impl<
    T1: BeansParam, T2: BeansParam, T3: BeansParam, T4: BeansParam, T5: BeansParam,
    T6: BeansParam, T7: BeansParam, T8: BeansParam, T9: BeansParam,
> BeansParam for (
    T1, T2, T3, T4, T5, T6, T7, T8, T9,
) {
    type State = (
        T1::State, T2::State, T3::State, T4::State, T5::State, T6::State, T7::State, T8::State,
        T9::State,
    );

    open spec fn resolvable(beans: Pairs) -> bool {
        &&& T1::resolvable(beans)
        &&& T2::resolvable(beans)
        &&& T3::resolvable(beans)
        &&& T4::resolvable(beans)
        &&& T5::resolvable(beans)
        &&& T6::resolvable(beans)
        &&& T7::resolvable(beans)
        &&& T8::resolvable(beans)
        &&& T9::resolvable(beans)
    }

    open spec fn accepts(self, beans: Pairs) -> bool {
        &&& self.0.accepts(beans)
        &&& self.1.accepts(beans)
        &&& self.2.accepts(beans)
        &&& self.3.accepts(beans)
        &&& self.4.accepts(beans)
        &&& self.5.accepts(beans)
        &&& self.6.accepts(beans)
        &&& self.7.accepts(beans)
        &&& self.8.accepts(beans)
    }

    open spec fn rejects(beans: Pairs, error: BeanError) -> bool {
        if !T1::resolvable(beans) {
            T1::rejects(beans, error)
        } else if !T2::resolvable(beans) {
            T2::rejects(beans, error)
        } else if !T3::resolvable(beans) {
            T3::rejects(beans, error)
        } else if !T4::resolvable(beans) {
            T4::rejects(beans, error)
        } else if !T5::resolvable(beans) {
            T5::rejects(beans, error)
        } else if !T6::resolvable(beans) {
            T6::rejects(beans, error)
        } else if !T7::resolvable(beans) {
            T7::rejects(beans, error)
        } else if !T8::resolvable(beans) {
            T8::rejects(beans, error)
        } else if !T9::resolvable(beans) {
            T9::rejects(beans, error)
        } else {
            false
        }
    }

    /// Each part of the state is what preparing its dependency may give.
    open spec fn prepared(beans: Pairs, state: Self::State) -> bool {
        &&& T1::prepared(beans, state.0)
        &&& T2::prepared(beans, state.1)
        &&& T3::prepared(beans, state.2)
        &&& T4::prepared(beans, state.3)
        &&& T5::prepared(beans, state.4)
        &&& T6::prepared(beans, state.5)
        &&& T7::prepared(beans, state.6)
        &&& T8::prepared(beans, state.7)
        &&& T9::prepared(beans, state.8)
    }

    fn init_state(beans: &Beans) -> (state: Self::State) {
        (
            T1::init_state(beans), T2::init_state(beans), T3::init_state(beans),
            T4::init_state(beans), T5::init_state(beans), T6::init_state(beans),
            T7::init_state(beans), T8::init_state(beans), T9::init_state(beans),
        )
    }

    fn get_param(state: &mut Self::State, beans: &Beans) -> (param: BeanResult<Self>) {
        let param1 = match T1::get_param(&mut state.0, beans) {
            Ok(resolved) => resolved,
            Err(error) => {
                return Err(error);
            },
        };
        let param2 = match T2::get_param(&mut state.1, beans) {
            Ok(resolved) => resolved,
            Err(error) => {
                return Err(error);
            },
        };
        let param3 = match T3::get_param(&mut state.2, beans) {
            Ok(resolved) => resolved,
            Err(error) => {
                return Err(error);
            },
        };
        let param4 = match T4::get_param(&mut state.3, beans) {
            Ok(resolved) => resolved,
            Err(error) => {
                return Err(error);
            },
        };
        let param5 = match T5::get_param(&mut state.4, beans) {
            Ok(resolved) => resolved,
            Err(error) => {
                return Err(error);
            },
        };
        let param6 = match T6::get_param(&mut state.5, beans) {
            Ok(resolved) => resolved,
            Err(error) => {
                return Err(error);
            },
        };
        let param7 = match T7::get_param(&mut state.6, beans) {
            Ok(resolved) => resolved,
            Err(error) => {
                return Err(error);
            },
        };
        let param8 = match T8::get_param(&mut state.7, beans) {
            Ok(resolved) => resolved,
            Err(error) => {
                return Err(error);
            },
        };
        let param9 = match T9::get_param(&mut state.8, beans) {
            Ok(resolved) => resolved,
            Err(error) => {
                return Err(error);
            },
        };
        Ok((
            param1, param2, param3, param4, param5, param6, param7, param8, param9,
        ))
    }
}

impl<
    T1: BeansParam, T2: BeansParam, T3: BeansParam, T4: BeansParam, T5: BeansParam,
    T6: BeansParam, T7: BeansParam, T8: BeansParam, T9: BeansParam, T10: BeansParam,
> BeansParam for (
    T1, T2, T3, T4, T5, T6, T7, T8, T9, T10,
) {
    type State = (
        T1::State, T2::State, T3::State, T4::State, T5::State, T6::State, T7::State, T8::State,
        T9::State, T10::State,
    );

    open spec fn resolvable(beans: Pairs) -> bool {
        &&& T1::resolvable(beans)
        &&& T2::resolvable(beans)
        &&& T3::resolvable(beans)
        &&& T4::resolvable(beans)
        &&& T5::resolvable(beans)
        &&& T6::resolvable(beans)
        &&& T7::resolvable(beans)
        &&& T8::resolvable(beans)
        &&& T9::resolvable(beans)
        &&& T10::resolvable(beans)
    }

    open spec fn accepts(self, beans: Pairs) -> bool {
        &&& self.0.accepts(beans)
        &&& self.1.accepts(beans)
        &&& self.2.accepts(beans)
        &&& self.3.accepts(beans)
        &&& self.4.accepts(beans)
        &&& self.5.accepts(beans)
        &&& self.6.accepts(beans)
        &&& self.7.accepts(beans)
        &&& self.8.accepts(beans)
        &&& self.9.accepts(beans)
    }

    open spec fn rejects(beans: Pairs, error: BeanError) -> bool {
        if !T1::resolvable(beans) {
            T1::rejects(beans, error)
        } else if !T2::resolvable(beans) {
            T2::rejects(beans, error)
        } else if !T3::resolvable(beans) {
            T3::rejects(beans, error)
        } else if !T4::resolvable(beans) {
            T4::rejects(beans, error)
        } else if !T5::resolvable(beans) {
            T5::rejects(beans, error)
        } else if !T6::resolvable(beans) {
            T6::rejects(beans, error)
        } else if !T7::resolvable(beans) {
            T7::rejects(beans, error)
        } else if !T8::resolvable(beans) {
            T8::rejects(beans, error)
        } else if !T9::resolvable(beans) {
            T9::rejects(beans, error)
        } else if !T10::resolvable(beans) {
            T10::rejects(beans, error)
        } else {
            false
        }
    }

    /// Each part of the state is what preparing its dependency may give.
    open spec fn prepared(beans: Pairs, state: Self::State) -> bool {
        &&& T1::prepared(beans, state.0)
        &&& T2::prepared(beans, state.1)
        &&& T3::prepared(beans, state.2)
        &&& T4::prepared(beans, state.3)
        &&& T5::prepared(beans, state.4)
        &&& T6::prepared(beans, state.5)
        &&& T7::prepared(beans, state.6)
        &&& T8::prepared(beans, state.7)
        &&& T9::prepared(beans, state.8)
        &&& T10::prepared(beans, state.9)
    }

    fn init_state(beans: &Beans) -> (state: Self::State) {
        (
            T1::init_state(beans), T2::init_state(beans), T3::init_state(beans),
            T4::init_state(beans), T5::init_state(beans), T6::init_state(beans),
            T7::init_state(beans), T8::init_state(beans), T9::init_state(beans),
            T10::init_state(beans),
        )
    }

    fn get_param(state: &mut Self::State, beans: &Beans) -> (param: BeanResult<Self>) {
        let param1 = match T1::get_param(&mut state.0, beans) {
            Ok(resolved) => resolved,
            Err(error) => {
                return Err(error);
            },
        };
        let param2 = match T2::get_param(&mut state.1, beans) {
            Ok(resolved) => resolved,
            Err(error) => {
                return Err(error);
            },
        };
        let param3 = match T3::get_param(&mut state.2, beans) {
            Ok(resolved) => resolved,
            Err(error) => {
                return Err(error);
            },
        };
        let param4 = match T4::get_param(&mut state.3, beans) {
            Ok(resolved) => resolved,
            Err(error) => {
                return Err(error);
            },
        };
        let param5 = match T5::get_param(&mut state.4, beans) {
            Ok(resolved) => resolved,
            Err(error) => {
                return Err(error);
            },
        };
        let param6 = match T6::get_param(&mut state.5, beans) {
            Ok(resolved) => resolved,
            Err(error) => {
                return Err(error);
            },
        };
        let param7 = match T7::get_param(&mut state.6, beans) {
            Ok(resolved) => resolved,
            Err(error) => {
                return Err(error);
            },
        };
        let param8 = match T8::get_param(&mut state.7, beans) {
            Ok(resolved) => resolved,
            Err(error) => {
                return Err(error);
            },
        };
        let param9 = match T9::get_param(&mut state.8, beans) {
            Ok(resolved) => resolved,
            Err(error) => {
                return Err(error);
            },
        };
        let param10 = match T10::get_param(&mut state.9, beans) {
            Ok(resolved) => resolved,
            Err(error) => {
                return Err(error);
            },
        };
        Ok((
            param1, param2, param3, param4, param5, param6, param7, param8, param9, param10,
        ))
    }
}

impl<
    T1: BeansParam, T2: BeansParam, T3: BeansParam, T4: BeansParam, T5: BeansParam,
    T6: BeansParam, T7: BeansParam, T8: BeansParam, T9: BeansParam, T10: BeansParam,
    T11: BeansParam,
> BeansParam for (
    T1, T2, T3, T4, T5, T6, T7, T8, T9, T10, T11,
) {
    type State = (
        T1::State, T2::State, T3::State, T4::State, T5::State, T6::State, T7::State, T8::State,
        T9::State, T10::State, T11::State,
    );

    open spec fn resolvable(beans: Pairs) -> bool {
        &&& T1::resolvable(beans)
        &&& T2::resolvable(beans)
        &&& T3::resolvable(beans)
        &&& T4::resolvable(beans)
        &&& T5::resolvable(beans)
        &&& T6::resolvable(beans)
        &&& T7::resolvable(beans)
        &&& T8::resolvable(beans)
        &&& T9::resolvable(beans)
        &&& T10::resolvable(beans)
        &&& T11::resolvable(beans)
    }

    open spec fn accepts(self, beans: Pairs) -> bool {
        &&& self.0.accepts(beans)
        &&& self.1.accepts(beans)
        &&& self.2.accepts(beans)
        &&& self.3.accepts(beans)
        &&& self.4.accepts(beans)
        &&& self.5.accepts(beans)
        &&& self.6.accepts(beans)
        &&& self.7.accepts(beans)
        &&& self.8.accepts(beans)
        &&& self.9.accepts(beans)
        &&& self.10.accepts(beans)
    }

    open spec fn rejects(beans: Pairs, error: BeanError) -> bool {
        if !T1::resolvable(beans) {
            T1::rejects(beans, error)
        } else if !T2::resolvable(beans) {
            T2::rejects(beans, error)
        } else if !T3::resolvable(beans) {
            T3::rejects(beans, error)
        } else if !T4::resolvable(beans) {
            T4::rejects(beans, error)
        } else if !T5::resolvable(beans) {
            T5::rejects(beans, error)
        } else if !T6::resolvable(beans) {
            T6::rejects(beans, error)
        } else if !T7::resolvable(beans) {
            T7::rejects(beans, error)
        } else if !T8::resolvable(beans) {
            T8::rejects(beans, error)
        } else if !T9::resolvable(beans) {
            T9::rejects(beans, error)
        } else if !T10::resolvable(beans) {
            T10::rejects(beans, error)
        } else if !T11::resolvable(beans) {
            T11::rejects(beans, error)
        } else {
            false
        }
    }

    /// Each part of the state is what preparing its dependency may give.
    open spec fn prepared(beans: Pairs, state: Self::State) -> bool {
        &&& T1::prepared(beans, state.0)
        &&& T2::prepared(beans, state.1)
        &&& T3::prepared(beans, state.2)
        &&& T4::prepared(beans, state.3)
        &&& T5::prepared(beans, state.4)
        &&& T6::prepared(beans, state.5)
        &&& T7::prepared(beans, state.6)
        &&& T8::prepared(beans, state.7)
        &&& T9::prepared(beans, state.8)
        &&& T10::prepared(beans, state.9)
        &&& T11::prepared(beans, state.10)
    }

    fn init_state(beans: &Beans) -> (state: Self::State) {
        (
            T1::init_state(beans), T2::init_state(beans), T3::init_state(beans),
            T4::init_state(beans), T5::init_state(beans), T6::init_state(beans),
            T7::init_state(beans), T8::init_state(beans), T9::init_state(beans),
            T10::init_state(beans), T11::init_state(beans),
        )
    }

    fn get_param(state: &mut Self::State, beans: &Beans) -> (param: BeanResult<Self>) {
        let param1 = match T1::get_param(&mut state.0, beans) {
            Ok(resolved) => resolved,
            Err(error) => {
                return Err(error);
            },
        };
        let param2 = match T2::get_param(&mut state.1, beans) {
            Ok(resolved) => resolved,
            Err(error) => {
                return Err(error);
            },
        };
        let param3 = match T3::get_param(&mut state.2, beans) {
            Ok(resolved) => resolved,
            Err(error) => {
                return Err(error);
            },
        };
        let param4 = match T4::get_param(&mut state.3, beans) {
            Ok(resolved) => resolved,
            Err(error) => {
                return Err(error);
            },
        };
        let param5 = match T5::get_param(&mut state.4, beans) {
            Ok(resolved) => resolved,
            Err(error) => {
                return Err(error);
            },
        };
        let param6 = match T6::get_param(&mut state.5, beans) {
            Ok(resolved) => resolved,
            Err(error) => {
                return Err(error);
            },
        };
        let param7 = match T7::get_param(&mut state.6, beans) {
            Ok(resolved) => resolved,
            Err(error) => {
                return Err(error);
            },
        };
        let param8 = match T8::get_param(&mut state.7, beans) {
            Ok(resolved) => resolved,
            Err(error) => {
                return Err(error);
            },
        };
        let param9 = match T9::get_param(&mut state.8, beans) {
            Ok(resolved) => resolved,
            Err(error) => {
                return Err(error);
            },
        };
        let param10 = match T10::get_param(&mut state.9, beans) {
            Ok(resolved) => resolved,
            Err(error) => {
                return Err(error);
            },
        };
        let param11 = match T11::get_param(&mut state.10, beans) {
            Ok(resolved) => resolved,
            Err(error) => {
                return Err(error);
            },
        };
        Ok((
            param1, param2, param3, param4, param5, param6, param7, param8, param9, param10,
            param11,
        ))
    }
}

impl<
    T1: BeansParam, T2: BeansParam, T3: BeansParam, T4: BeansParam, T5: BeansParam,
    T6: BeansParam, T7: BeansParam, T8: BeansParam, T9: BeansParam, T10: BeansParam,
    T11: BeansParam, T12: BeansParam,
> BeansParam for (
    T1, T2, T3, T4, T5, T6, T7, T8, T9, T10, T11, T12,
) {
    type State = (
        T1::State, T2::State, T3::State, T4::State, T5::State, T6::State, T7::State, T8::State,
        T9::State, T10::State, T11::State, T12::State,
    );

    open spec fn resolvable(beans: Pairs) -> bool {
        &&& T1::resolvable(beans)
        &&& T2::resolvable(beans)
        &&& T3::resolvable(beans)
        &&& T4::resolvable(beans)
        &&& T5::resolvable(beans)
        &&& T6::resolvable(beans)
        &&& T7::resolvable(beans)
        &&& T8::resolvable(beans)
        &&& T9::resolvable(beans)
        &&& T10::resolvable(beans)
        &&& T11::resolvable(beans)
        &&& T12::resolvable(beans)
    }

    open spec fn accepts(self, beans: Pairs) -> bool {
        &&& self.0.accepts(beans)
        &&& self.1.accepts(beans)
        &&& self.2.accepts(beans)
        &&& self.3.accepts(beans)
        &&& self.4.accepts(beans)
        &&& self.5.accepts(beans)
        &&& self.6.accepts(beans)
        &&& self.7.accepts(beans)
        &&& self.8.accepts(beans)
        &&& self.9.accepts(beans)
        &&& self.10.accepts(beans)
        &&& self.11.accepts(beans)
    }

    open spec fn rejects(beans: Pairs, error: BeanError) -> bool {
        if !T1::resolvable(beans) {
            T1::rejects(beans, error)
        } else if !T2::resolvable(beans) {
            T2::rejects(beans, error)
        } else if !T3::resolvable(beans) {
            T3::rejects(beans, error)
        } else if !T4::resolvable(beans) {
            T4::rejects(beans, error)
        } else if !T5::resolvable(beans) {
            T5::rejects(beans, error)
        } else if !T6::resolvable(beans) {
            T6::rejects(beans, error)
        } else if !T7::resolvable(beans) {
            T7::rejects(beans, error)
        } else if !T8::resolvable(beans) {
            T8::rejects(beans, error)
        } else if !T9::resolvable(beans) {
            T9::rejects(beans, error)
        } else if !T10::resolvable(beans) {
            T10::rejects(beans, error)
        } else if !T11::resolvable(beans) {
            T11::rejects(beans, error)
        } else if !T12::resolvable(beans) {
            T12::rejects(beans, error)
        } else {
            false
        }
    }

    /// Each part of the state is what preparing its dependency may give.
    open spec fn prepared(beans: Pairs, state: Self::State) -> bool {
        &&& T1::prepared(beans, state.0)
        &&& T2::prepared(beans, state.1)
        &&& T3::prepared(beans, state.2)
        &&& T4::prepared(beans, state.3)
        &&& T5::prepared(beans, state.4)
        &&& T6::prepared(beans, state.5)
        &&& T7::prepared(beans, state.6)
        &&& T8::prepared(beans, state.7)
        &&& T9::prepared(beans, state.8)
        &&& T10::prepared(beans, state.9)
        &&& T11::prepared(beans, state.10)
        &&& T12::prepared(beans, state.11)
    }

    fn init_state(beans: &Beans) -> (state: Self::State) {
        (
            T1::init_state(beans), T2::init_state(beans), T3::init_state(beans),
            T4::init_state(beans), T5::init_state(beans), T6::init_state(beans),
            T7::init_state(beans), T8::init_state(beans), T9::init_state(beans),
            T10::init_state(beans), T11::init_state(beans), T12::init_state(beans),
        )
    }

    fn get_param(state: &mut Self::State, beans: &Beans) -> (param: BeanResult<Self>) {
        let param1 = match T1::get_param(&mut state.0, beans) {
            Ok(resolved) => resolved,
            Err(error) => {
                return Err(error);
            },
        };
        let param2 = match T2::get_param(&mut state.1, beans) {
            Ok(resolved) => resolved,
            Err(error) => {
                return Err(error);
            },
        };
        let param3 = match T3::get_param(&mut state.2, beans) {
            Ok(resolved) => resolved,
            Err(error) => {
                return Err(error);
            },
        };
        let param4 = match T4::get_param(&mut state.3, beans) {
            Ok(resolved) => resolved,
            Err(error) => {
                return Err(error);
            },
        };
        let param5 = match T5::get_param(&mut state.4, beans) {
            Ok(resolved) => resolved,
            Err(error) => {
                return Err(error);
            },
        };
        let param6 = match T6::get_param(&mut state.5, beans) {
            Ok(resolved) => resolved,
            Err(error) => {
                return Err(error);
            },
        };
        let param7 = match T7::get_param(&mut state.6, beans) {
            Ok(resolved) => resolved,
            Err(error) => {
                return Err(error);
            },
        };
        let param8 = match T8::get_param(&mut state.7, beans) {
            Ok(resolved) => resolved,
            Err(error) => {
                return Err(error);
            },
        };
        let param9 = match T9::get_param(&mut state.8, beans) {
            Ok(resolved) => resolved,
            Err(error) => {
                return Err(error);
            },
        };
        let param10 = match T10::get_param(&mut state.9, beans) {
            Ok(resolved) => resolved,
            Err(error) => {
                return Err(error);
            },
        };
        let param11 = match T11::get_param(&mut state.10, beans) {
            Ok(resolved) => resolved,
            Err(error) => {
                return Err(error);
            },
        };
        let param12 = match T12::get_param(&mut state.11, beans) {
            Ok(resolved) => resolved,
            Err(error) => {
                return Err(error);
            },
        };
        Ok((
            param1, param2, param3, param4, param5, param6, param7, param8, param9, param10,
            param11, param12,
        ))
    }
}

impl<
    T1: BeansParam, T2: BeansParam, T3: BeansParam, T4: BeansParam, T5: BeansParam,
    T6: BeansParam, T7: BeansParam, T8: BeansParam, T9: BeansParam, T10: BeansParam,
    T11: BeansParam, T12: BeansParam, T13: BeansParam,
> BeansParam for (
    T1, T2, T3, T4, T5, T6, T7, T8, T9, T10, T11, T12, T13,
) {
    type State = (
        T1::State, T2::State, T3::State, T4::State, T5::State, T6::State, T7::State, T8::State,
        T9::State, T10::State, T11::State, T12::State, T13::State,
    );

    open spec fn resolvable(beans: Pairs) -> bool {
        &&& T1::resolvable(beans)
        &&& T2::resolvable(beans)
        &&& T3::resolvable(beans)
        &&& T4::resolvable(beans)
        &&& T5::resolvable(beans)
        &&& T6::resolvable(beans)
        &&& T7::resolvable(beans)
        &&& T8::resolvable(beans)
        &&& T9::resolvable(beans)
        &&& T10::resolvable(beans)
        &&& T11::resolvable(beans)
        &&& T12::resolvable(beans)
        &&& T13::resolvable(beans)
    }

    open spec fn accepts(self, beans: Pairs) -> bool {
        &&& self.0.accepts(beans)
        &&& self.1.accepts(beans)
        &&& self.2.accepts(beans)
        &&& self.3.accepts(beans)
        &&& self.4.accepts(beans)
        &&& self.5.accepts(beans)
        &&& self.6.accepts(beans)
        &&& self.7.accepts(beans)
        &&& self.8.accepts(beans)
        &&& self.9.accepts(beans)
        &&& self.10.accepts(beans)
        &&& self.11.accepts(beans)
        &&& self.12.accepts(beans)
    }

    open spec fn rejects(beans: Pairs, error: BeanError) -> bool {
        if !T1::resolvable(beans) {
            T1::rejects(beans, error)
        } else if !T2::resolvable(beans) {
            T2::rejects(beans, error)
        } else if !T3::resolvable(beans) {
            T3::rejects(beans, error)
        } else if !T4::resolvable(beans) {
            T4::rejects(beans, error)
        } else if !T5::resolvable(beans) {
            T5::rejects(beans, error)
        } else if !T6::resolvable(beans) {
            T6::rejects(beans, error)
        } else if !T7::resolvable(beans) {
            T7::rejects(beans, error)
        } else if !T8::resolvable(beans) {
            T8::rejects(beans, error)
        } else if !T9::resolvable(beans) {
            T9::rejects(beans, error)
        } else if !T10::resolvable(beans) {
            T10::rejects(beans, error)
        } else if !T11::resolvable(beans) {
            T11::rejects(beans, error)
        } else if !T12::resolvable(beans) {
            T12::rejects(beans, error)
        } else if !T13::resolvable(beans) {
            T13::rejects(beans, error)
        } else {
            false
        }
    }

    /// Each part of the state is what preparing its dependency may give.
    open spec fn prepared(beans: Pairs, state: Self::State) -> bool {
        &&& T1::prepared(beans, state.0)
        &&& T2::prepared(beans, state.1)
        &&& T3::prepared(beans, state.2)
        &&& T4::prepared(beans, state.3)
        &&& T5::prepared(beans, state.4)
        &&& T6::prepared(beans, state.5)
        &&& T7::prepared(beans, state.6)
        &&& T8::prepared(beans, state.7)
        &&& T9::prepared(beans, state.8)
        &&& T10::prepared(beans, state.9)
        &&& T11::prepared(beans, state.10)
        &&& T12::prepared(beans, state.11)
        &&& T13::prepared(beans, state.12)
    }

    fn init_state(beans: &Beans) -> (state: Self::State) {
        (
            T1::init_state(beans), T2::init_state(beans), T3::init_state(beans),
            T4::init_state(beans), T5::init_state(beans), T6::init_state(beans),
            T7::init_state(beans), T8::init_state(beans), T9::init_state(beans),
            T10::init_state(beans), T11::init_state(beans), T12::init_state(beans),
            T13::init_state(beans),
        )
    }

    fn get_param(state: &mut Self::State, beans: &Beans) -> (param: BeanResult<Self>) {
        let param1 = match T1::get_param(&mut state.0, beans) {
            Ok(resolved) => resolved,
            Err(error) => {
                return Err(error);
            },
        };
        let param2 = match T2::get_param(&mut state.1, beans) {
            Ok(resolved) => resolved,
            Err(error) => {
                return Err(error);
            },
        };
        let param3 = match T3::get_param(&mut state.2, beans) {
            Ok(resolved) => resolved,
            Err(error) => {
                return Err(error);
            },
        };
        let param4 = match T4::get_param(&mut state.3, beans) {
            Ok(resolved) => resolved,
            Err(error) => {
                return Err(error);
            },
        };
        let param5 = match T5::get_param(&mut state.4, beans) {
            Ok(resolved) => resolved,
            Err(error) => {
                return Err(error);
            },
        };
        let param6 = match T6::get_param(&mut state.5, beans) {
            Ok(resolved) => resolved,
            Err(error) => {
                return Err(error);
            },
        };
        let param7 = match T7::get_param(&mut state.6, beans) {
            Ok(resolved) => resolved,
            Err(error) => {
                return Err(error);
            },
        };
        let param8 = match T8::get_param(&mut state.7, beans) {
            Ok(resolved) => resolved,
            Err(error) => {
                return Err(error);
            },
        };
        let param9 = match T9::get_param(&mut state.8, beans) {
            Ok(resolved) => resolved,
            Err(error) => {
                return Err(error);
            },
        };
        let param10 = match T10::get_param(&mut state.9, beans) {
            Ok(resolved) => resolved,
            Err(error) => {
                return Err(error);
            },
        };
        let param11 = match T11::get_param(&mut state.10, beans) {
            Ok(resolved) => resolved,
            Err(error) => {
                return Err(error);
            },
        };
        let param12 = match T12::get_param(&mut state.11, beans) {
            Ok(resolved) => resolved,
            Err(error) => {
                return Err(error);
            },
        };
        let param13 = match T13::get_param(&mut state.12, beans) {
            Ok(resolved) => resolved,
            Err(error) => {
                return Err(error);
            },
        };
        Ok((
            param1, param2, param3, param4, param5, param6, param7, param8, param9, param10,
            param11, param12, param13,
        ))
    }
}

impl<
    T1: BeansParam, T2: BeansParam, T3: BeansParam, T4: BeansParam, T5: BeansParam,
    T6: BeansParam, T7: BeansParam, T8: BeansParam, T9: BeansParam, T10: BeansParam,
    T11: BeansParam, T12: BeansParam, T13: BeansParam, T14: BeansParam,
> BeansParam for (
    T1, T2, T3, T4, T5, T6, T7, T8, T9, T10, T11, T12, T13, T14,
) {
    type State = (
        T1::State, T2::State, T3::State, T4::State, T5::State, T6::State, T7::State, T8::State,
        T9::State, T10::State, T11::State, T12::State, T13::State, T14::State,
    );

    open spec fn resolvable(beans: Pairs) -> bool {
        &&& T1::resolvable(beans)
        &&& T2::resolvable(beans)
        &&& T3::resolvable(beans)
        &&& T4::resolvable(beans)
        &&& T5::resolvable(beans)
        &&& T6::resolvable(beans)
        &&& T7::resolvable(beans)
        &&& T8::resolvable(beans)
        &&& T9::resolvable(beans)
        &&& T10::resolvable(beans)
        &&& T11::resolvable(beans)
        &&& T12::resolvable(beans)
        &&& T13::resolvable(beans)
        &&& T14::resolvable(beans)
    }

    open spec fn accepts(self, beans: Pairs) -> bool {
        &&& self.0.accepts(beans)
        &&& self.1.accepts(beans)
        &&& self.2.accepts(beans)
        &&& self.3.accepts(beans)
        &&& self.4.accepts(beans)
        &&& self.5.accepts(beans)
        &&& self.6.accepts(beans)
        &&& self.7.accepts(beans)
        &&& self.8.accepts(beans)
        &&& self.9.accepts(beans)
        &&& self.10.accepts(beans)
        &&& self.11.accepts(beans)
        &&& self.12.accepts(beans)
        &&& self.13.accepts(beans)
    }

    open spec fn rejects(beans: Pairs, error: BeanError) -> bool {
        if !T1::resolvable(beans) {
            T1::rejects(beans, error)
        } else if !T2::resolvable(beans) {
            T2::rejects(beans, error)
        } else if !T3::resolvable(beans) {
            T3::rejects(beans, error)
        } else if !T4::resolvable(beans) {
            T4::rejects(beans, error)
        } else if !T5::resolvable(beans) {
            T5::rejects(beans, error)
        } else if !T6::resolvable(beans) {
            T6::rejects(beans, error)
        } else if !T7::resolvable(beans) {
            T7::rejects(beans, error)
        } else if !T8::resolvable(beans) {
            T8::rejects(beans, error)
        } else if !T9::resolvable(beans) {
            T9::rejects(beans, error)
        } else if !T10::resolvable(beans) {
            T10::rejects(beans, error)
        } else if !T11::resolvable(beans) {
            T11::rejects(beans, error)
        } else if !T12::resolvable(beans) {
            T12::rejects(beans, error)
        } else if !T13::resolvable(beans) {
            T13::rejects(beans, error)
        } else if !T14::resolvable(beans) {
            T14::rejects(beans, error)
        } else {
            false
        }
    }

    /// Each part of the state is what preparing its dependency may give.
    open spec fn prepared(beans: Pairs, state: Self::State) -> bool {
        &&& T1::prepared(beans, state.0)
        &&& T2::prepared(beans, state.1)
        &&& T3::prepared(beans, state.2)
        &&& T4::prepared(beans, state.3)
        &&& T5::prepared(beans, state.4)
        &&& T6::prepared(beans, state.5)
        &&& T7::prepared(beans, state.6)
        &&& T8::prepared(beans, state.7)
        &&& T9::prepared(beans, state.8)
        &&& T10::prepared(beans, state.9)
        &&& T11::prepared(beans, state.10)
        &&& T12::prepared(beans, state.11)
        &&& T13::prepared(beans, state.12)
        &&& T14::prepared(beans, state.13)
    }

    fn init_state(beans: &Beans) -> (state: Self::State) {
        (
            T1::init_state(beans), T2::init_state(beans), T3::init_state(beans),
            T4::init_state(beans), T5::init_state(beans), T6::init_state(beans),
            T7::init_state(beans), T8::init_state(beans), T9::init_state(beans),
            T10::init_state(beans), T11::init_state(beans), T12::init_state(beans),
            T13::init_state(beans), T14::init_state(beans),
        )
    }

    fn get_param(state: &mut Self::State, beans: &Beans) -> (param: BeanResult<Self>) {
        let param1 = match T1::get_param(&mut state.0, beans) {
            Ok(resolved) => resolved,
            Err(error) => {
                return Err(error);
            },
        };
        let param2 = match T2::get_param(&mut state.1, beans) {
            Ok(resolved) => resolved,
            Err(error) => {
                return Err(error);
            },
        };
        let param3 = match T3::get_param(&mut state.2, beans) {
            Ok(resolved) => resolved,
            Err(error) => {
                return Err(error);
            },
        };
        let param4 = match T4::get_param(&mut state.3, beans) {
            Ok(resolved) => resolved,
            Err(error) => {
                return Err(error);
            },
        };
        let param5 = match T5::get_param(&mut state.4, beans) {
            Ok(resolved) => resolved,
            Err(error) => {
                return Err(error);
            },
        };
        let param6 = match T6::get_param(&mut state.5, beans) {
            Ok(resolved) => resolved,
            Err(error) => {
                return Err(error);
            },
        };
        let param7 = match T7::get_param(&mut state.6, beans) {
            Ok(resolved) => resolved,
            Err(error) => {
                return Err(error);
            },
        };
        let param8 = match T8::get_param(&mut state.7, beans) {
            Ok(resolved) => resolved,
            Err(error) => {
                return Err(error);
            },
        };
        let param9 = match T9::get_param(&mut state.8, beans) {
            Ok(resolved) => resolved,
            Err(error) => {
                return Err(error);
            },
        };
        let param10 = match T10::get_param(&mut state.9, beans) {
            Ok(resolved) => resolved,
            Err(error) => {
                return Err(error);
            },
        };
        let param11 = match T11::get_param(&mut state.10, beans) {
            Ok(resolved) => resolved,
            Err(error) => {
                return Err(error);
            },
        };
        let param12 = match T12::get_param(&mut state.11, beans) {
            Ok(resolved) => resolved,
            Err(error) => {
                return Err(error);
            },
        };
        let param13 = match T13::get_param(&mut state.12, beans) {
            Ok(resolved) => resolved,
            Err(error) => {
                return Err(error);
            },
        };
        let param14 = match T14::get_param(&mut state.13, beans) {
            Ok(resolved) => resolved,
            Err(error) => {
                return Err(error);
            },
        };
        Ok((
            param1, param2, param3, param4, param5, param6, param7, param8, param9, param10,
            param11, param12, param13, param14,
        ))
    }
}

impl<
    T1: BeansParam, T2: BeansParam, T3: BeansParam, T4: BeansParam, T5: BeansParam,
    T6: BeansParam, T7: BeansParam, T8: BeansParam, T9: BeansParam, T10: BeansParam,
    T11: BeansParam, T12: BeansParam, T13: BeansParam, T14: BeansParam, T15: BeansParam,
> BeansParam for (
    T1, T2, T3, T4, T5, T6, T7, T8, T9, T10, T11, T12, T13, T14, T15,
) {
    type State = (
        T1::State, T2::State, T3::State, T4::State, T5::State, T6::State, T7::State, T8::State,
        T9::State, T10::State, T11::State, T12::State, T13::State, T14::State, T15::State,
    );

    open spec fn resolvable(beans: Pairs) -> bool {
        &&& T1::resolvable(beans)
        &&& T2::resolvable(beans)
        &&& T3::resolvable(beans)
        &&& T4::resolvable(beans)
        &&& T5::resolvable(beans)
        &&& T6::resolvable(beans)
        &&& T7::resolvable(beans)
        &&& T8::resolvable(beans)
        &&& T9::resolvable(beans)
        &&& T10::resolvable(beans)
        &&& T11::resolvable(beans)
        &&& T12::resolvable(beans)
        &&& T13::resolvable(beans)
        &&& T14::resolvable(beans)
        &&& T15::resolvable(beans)
    }

    open spec fn accepts(self, beans: Pairs) -> bool {
        &&& self.0.accepts(beans)
        &&& self.1.accepts(beans)
        &&& self.2.accepts(beans)
        &&& self.3.accepts(beans)
        &&& self.4.accepts(beans)
        &&& self.5.accepts(beans)
        &&& self.6.accepts(beans)
        &&& self.7.accepts(beans)
        &&& self.8.accepts(beans)
        &&& self.9.accepts(beans)
        &&& self.10.accepts(beans)
        &&& self.11.accepts(beans)
        &&& self.12.accepts(beans)
        &&& self.13.accepts(beans)
        &&& self.14.accepts(beans)
    }

    open spec fn rejects(beans: Pairs, error: BeanError) -> bool {
        if !T1::resolvable(beans) {
            T1::rejects(beans, error)
        } else if !T2::resolvable(beans) {
            T2::rejects(beans, error)
        } else if !T3::resolvable(beans) {
            T3::rejects(beans, error)
        } else if !T4::resolvable(beans) {
            T4::rejects(beans, error)
        } else if !T5::resolvable(beans) {
            T5::rejects(beans, error)
        } else if !T6::resolvable(beans) {
            T6::rejects(beans, error)
        } else if !T7::resolvable(beans) {
            T7::rejects(beans, error)
        } else if !T8::resolvable(beans) {
            T8::rejects(beans, error)
        } else if !T9::resolvable(beans) {
            T9::rejects(beans, error)
        } else if !T10::resolvable(beans) {
            T10::rejects(beans, error)
        } else if !T11::resolvable(beans) {
            T11::rejects(beans, error)
        } else if !T12::resolvable(beans) {
            T12::rejects(beans, error)
        } else if !T13::resolvable(beans) {
            T13::rejects(beans, error)
        } else if !T14::resolvable(beans) {
            T14::rejects(beans, error)
        } else if !T15::resolvable(beans) {
            T15::rejects(beans, error)
        } else {
            false
        }
    }

    /// Each part of the state is what preparing its dependency may give.
    open spec fn prepared(beans: Pairs, state: Self::State) -> bool {
        &&& T1::prepared(beans, state.0)
        &&& T2::prepared(beans, state.1)
        &&& T3::prepared(beans, state.2)
        &&& T4::prepared(beans, state.3)
        &&& T5::prepared(beans, state.4)
        &&& T6::prepared(beans, state.5)
        &&& T7::prepared(beans, state.6)
        &&& T8::prepared(beans, state.7)
        &&& T9::prepared(beans, state.8)
        &&& T10::prepared(beans, state.9)
        &&& T11::prepared(beans, state.10)
        &&& T12::prepared(beans, state.11)
        &&& T13::prepared(beans, state.12)
        &&& T14::prepared(beans, state.13)
        &&& T15::prepared(beans, state.14)
    }

    fn init_state(beans: &Beans) -> (state: Self::State) {
        (
            T1::init_state(beans), T2::init_state(beans), T3::init_state(beans),
            T4::init_state(beans), T5::init_state(beans), T6::init_state(beans),
            T7::init_state(beans), T8::init_state(beans), T9::init_state(beans),
            T10::init_state(beans), T11::init_state(beans), T12::init_state(beans),
            T13::init_state(beans), T14::init_state(beans), T15::init_state(beans),
        )
    }

    fn get_param(state: &mut Self::State, beans: &Beans) -> (param: BeanResult<Self>) {
        let param1 = match T1::get_param(&mut state.0, beans) {
            Ok(resolved) => resolved,
            Err(error) => {
                return Err(error);
            },
        };
        let param2 = match T2::get_param(&mut state.1, beans) {
            Ok(resolved) => resolved,
            Err(error) => {
                return Err(error);
            },
        };
        let param3 = match T3::get_param(&mut state.2, beans) {
            Ok(resolved) => resolved,
            Err(error) => {
                return Err(error);
            },
        };
        let param4 = match T4::get_param(&mut state.3, beans) {
            Ok(resolved) => resolved,
            Err(error) => {
                return Err(error);
            },
        };
        let param5 = match T5::get_param(&mut state.4, beans) {
            Ok(resolved) => resolved,
            Err(error) => {
                return Err(error);
            },
        };
        let param6 = match T6::get_param(&mut state.5, beans) {
            Ok(resolved) => resolved,
            Err(error) => {
                return Err(error);
            },
        };
        let param7 = match T7::get_param(&mut state.6, beans) {
            Ok(resolved) => resolved,
            Err(error) => {
                return Err(error);
            },
        };
        let param8 = match T8::get_param(&mut state.7, beans) {
            Ok(resolved) => resolved,
            Err(error) => {
                return Err(error);
            },
        };
        let param9 = match T9::get_param(&mut state.8, beans) {
            Ok(resolved) => resolved,
            Err(error) => {
                return Err(error);
            },
        };
        let param10 = match T10::get_param(&mut state.9, beans) {
            Ok(resolved) => resolved,
            Err(error) => {
                return Err(error);
            },
        };
        let param11 = match T11::get_param(&mut state.10, beans) {
            Ok(resolved) => resolved,
            Err(error) => {
                return Err(error);
            },
        };
        let param12 = match T12::get_param(&mut state.11, beans) {
            Ok(resolved) => resolved,
            Err(error) => {
                return Err(error);
            },
        };
        let param13 = match T13::get_param(&mut state.12, beans) {
            Ok(resolved) => resolved,
            Err(error) => {
                return Err(error);
            },
        };
        let param14 = match T14::get_param(&mut state.13, beans) {
            Ok(resolved) => resolved,
            Err(error) => {
                return Err(error);
            },
        };
        let param15 = match T15::get_param(&mut state.14, beans) {
            Ok(resolved) => resolved,
            Err(error) => {
                return Err(error);
            },
        };
        Ok((
            param1, param2, param3, param4, param5, param6, param7, param8, param9, param10,
            param11, param12, param13, param14, param15,
        ))
    }
}

impl<
    T1: BeansParam, T2: BeansParam, T3: BeansParam, T4: BeansParam, T5: BeansParam,
    T6: BeansParam, T7: BeansParam, T8: BeansParam, T9: BeansParam, T10: BeansParam,
    T11: BeansParam, T12: BeansParam, T13: BeansParam, T14: BeansParam, T15: BeansParam,
    T16: BeansParam,
> BeansParam for (
    T1, T2, T3, T4, T5, T6, T7, T8, T9, T10, T11, T12, T13, T14, T15, T16,
) {
    type State = (
        T1::State, T2::State, T3::State, T4::State, T5::State, T6::State, T7::State, T8::State,
        T9::State, T10::State, T11::State, T12::State, T13::State, T14::State, T15::State,
        T16::State,
    );

    open spec fn resolvable(beans: Pairs) -> bool {
        &&& T1::resolvable(beans)
        &&& T2::resolvable(beans)
        &&& T3::resolvable(beans)
        &&& T4::resolvable(beans)
        &&& T5::resolvable(beans)
        &&& T6::resolvable(beans)
        &&& T7::resolvable(beans)
        &&& T8::resolvable(beans)
        &&& T9::resolvable(beans)
        &&& T10::resolvable(beans)
        &&& T11::resolvable(beans)
        &&& T12::resolvable(beans)
        &&& T13::resolvable(beans)
        &&& T14::resolvable(beans)
        &&& T15::resolvable(beans)
        &&& T16::resolvable(beans)
    }

    open spec fn accepts(self, beans: Pairs) -> bool {
        &&& self.0.accepts(beans)
        &&& self.1.accepts(beans)
        &&& self.2.accepts(beans)
        &&& self.3.accepts(beans)
        &&& self.4.accepts(beans)
        &&& self.5.accepts(beans)
        &&& self.6.accepts(beans)
        &&& self.7.accepts(beans)
        &&& self.8.accepts(beans)
        &&& self.9.accepts(beans)
        &&& self.10.accepts(beans)
        &&& self.11.accepts(beans)
        &&& self.12.accepts(beans)
        &&& self.13.accepts(beans)
        &&& self.14.accepts(beans)
        &&& self.15.accepts(beans)
    }

    open spec fn rejects(beans: Pairs, error: BeanError) -> bool {
        if !T1::resolvable(beans) {
            T1::rejects(beans, error)
        } else if !T2::resolvable(beans) {
            T2::rejects(beans, error)
        } else if !T3::resolvable(beans) {
            T3::rejects(beans, error)
        } else if !T4::resolvable(beans) {
            T4::rejects(beans, error)
        } else if !T5::resolvable(beans) {
            T5::rejects(beans, error)
        } else if !T6::resolvable(beans) {
            T6::rejects(beans, error)
        } else if !T7::resolvable(beans) {
            T7::rejects(beans, error)
        } else if !T8::resolvable(beans) {
            T8::rejects(beans, error)
        } else if !T9::resolvable(beans) {
            T9::rejects(beans, error)
        } else if !T10::resolvable(beans) {
            T10::rejects(beans, error)
        } else if !T11::resolvable(beans) {
            T11::rejects(beans, error)
        } else if !T12::resolvable(beans) {
            T12::rejects(beans, error)
        } else if !T13::resolvable(beans) {
            T13::rejects(beans, error)
        } else if !T14::resolvable(beans) {
            T14::rejects(beans, error)
        } else if !T15::resolvable(beans) {
            T15::rejects(beans, error)
        } else if !T16::resolvable(beans) {
            T16::rejects(beans, error)
        } else {
            false
        }
    }

    /// Each part of the state is what preparing its dependency may give.
    open spec fn prepared(beans: Pairs, state: Self::State) -> bool {
        &&& T1::prepared(beans, state.0)
        &&& T2::prepared(beans, state.1)
        &&& T3::prepared(beans, state.2)
        &&& T4::prepared(beans, state.3)
        &&& T5::prepared(beans, state.4)
        &&& T6::prepared(beans, state.5)
        &&& T7::prepared(beans, state.6)
        &&& T8::prepared(beans, state.7)
        &&& T9::prepared(beans, state.8)
        &&& T10::prepared(beans, state.9)
        &&& T11::prepared(beans, state.10)
        &&& T12::prepared(beans, state.11)
        &&& T13::prepared(beans, state.12)
        &&& T14::prepared(beans, state.13)
        &&& T15::prepared(beans, state.14)
        &&& T16::prepared(beans, state.15)
    }

    fn init_state(beans: &Beans) -> (state: Self::State) {
        (
            T1::init_state(beans), T2::init_state(beans), T3::init_state(beans),
            T4::init_state(beans), T5::init_state(beans), T6::init_state(beans),
            T7::init_state(beans), T8::init_state(beans), T9::init_state(beans),
            T10::init_state(beans), T11::init_state(beans), T12::init_state(beans),
            T13::init_state(beans), T14::init_state(beans), T15::init_state(beans),
            T16::init_state(beans),
        )
    }

    fn get_param(state: &mut Self::State, beans: &Beans) -> (param: BeanResult<Self>) {
        let param1 = match T1::get_param(&mut state.0, beans) {
            Ok(resolved) => resolved,
            Err(error) => {
                return Err(error);
            },
        };
        let param2 = match T2::get_param(&mut state.1, beans) {
            Ok(resolved) => resolved,
            Err(error) => {
                return Err(error);
            },
        };
        let param3 = match T3::get_param(&mut state.2, beans) {
            Ok(resolved) => resolved,
            Err(error) => {
                return Err(error);
            },
        };
        let param4 = match T4::get_param(&mut state.3, beans) {
            Ok(resolved) => resolved,
            Err(error) => {
                return Err(error);
            },
        };
        let param5 = match T5::get_param(&mut state.4, beans) {
            Ok(resolved) => resolved,
            Err(error) => {
                return Err(error);
            },
        };
        let param6 = match T6::get_param(&mut state.5, beans) {
            Ok(resolved) => resolved,
            Err(error) => {
                return Err(error);
            },
        };
        let param7 = match T7::get_param(&mut state.6, beans) {
            Ok(resolved) => resolved,
            Err(error) => {
                return Err(error);
            },
        };
        let param8 = match T8::get_param(&mut state.7, beans) {
            Ok(resolved) => resolved,
            Err(error) => {
                return Err(error);
            },
        };
        let param9 = match T9::get_param(&mut state.8, beans) {
            Ok(resolved) => resolved,
            Err(error) => {
                return Err(error);
            },
        };
        let param10 = match T10::get_param(&mut state.9, beans) {
            Ok(resolved) => resolved,
            Err(error) => {
                return Err(error);
            },
        };
        let param11 = match T11::get_param(&mut state.10, beans) {
            Ok(resolved) => resolved,
            Err(error) => {
                return Err(error);
            },
        };
        let param12 = match T12::get_param(&mut state.11, beans) {
            Ok(resolved) => resolved,
            Err(error) => {
                return Err(error);
            },
        };
        let param13 = match T13::get_param(&mut state.12, beans) {
            Ok(resolved) => resolved,
            Err(error) => {
                return Err(error);
            },
        };
        let param14 = match T14::get_param(&mut state.13, beans) {
            Ok(resolved) => resolved,
            Err(error) => {
                return Err(error);
            },
        };
        let param15 = match T15::get_param(&mut state.14, beans) {
            Ok(resolved) => resolved,
            Err(error) => {
                return Err(error);
            },
        };
        let param16 = match T16::get_param(&mut state.15, beans) {
            Ok(resolved) => resolved,
            Err(error) => {
                return Err(error);
            },
        };
        Ok((
            param1, param2, param3, param4, param5, param6, param7, param8, param9, param10,
            param11, param12, param13, param14, param15, param16,
        ))
    }
}

} // verus!
