//! A lazy value that collects configurations until it is created.

use vstd::prelude::*;
use std::collections::VecDeque;

verus! {

/// The model of a [`ConfigureOnCreate`].
pub enum ConfigureView<T, L, C> {
    /// Creating the value was begun and never finished.
    Poisoned,
    /// The value is still to be created by `lazy`; `configurations` wait for it,
    /// oldest first.
    Init { lazy: L, configurations: Seq<C> },
    /// The value was created and configured.
    Available(T),
}

/// Applying the configurations, oldest first, to `start` may give `end`.
pub open spec fn configured<T, C: FnOnce(T) -> T>(configurations: Seq<C>, start: T, end: T) -> bool
    decreases configurations.len(),
{
    if configurations.len() == 0 {
        start == end
    } else {
        exists|mid: T|
            #[trigger] call_ensures(configurations[0], (start,), mid) && configured(
                configurations.skip(1),
                mid,
                end,
            )
    }
}

/// The configurations can be applied to `start`, oldest first: each one
/// accepts what the ones before it may give.
pub open spec fn configurable<T, C: FnOnce(T) -> T>(configurations: Seq<C>, start: T) -> bool
    decreases configurations.len(),
{
    configurations.len() == 0 || (call_requires(configurations[0], (start,)) && forall|mid: T|
        #[trigger] call_ensures(configurations[0], (start,), mid) ==> configurable(
            configurations.skip(1),
            mid,
        ))
}

/// What creating the value from `lazy` and `configurations` may give.
pub open spec fn created<T, L: FnOnce() -> T, C: FnOnce(T) -> T>(
    lazy: L,
    configurations: Seq<C>,
    value: T,
) -> bool {
    exists|fresh: T|
        #[trigger] call_ensures(lazy, (), fresh) && configured(configurations, fresh, value)
}

/// `lazy` can be called, and the configurations can be applied to whatever it
/// gives.
pub open spec fn creatable<T, L: FnOnce() -> T, C: FnOnce(T) -> T>(
    lazy: L,
    configurations: Seq<C>,
) -> bool {
    call_requires(lazy, ()) && forall|fresh: T|
        #[trigger] call_ensures(lazy, (), fresh) ==> configurable(configurations, fresh)
}

/// [`configured`], written out one step.
pub proof fn configured_unfold<T, C: FnOnce(T) -> T>(configurations: Seq<C>, start: T, end: T)
    ensures
        configurations.len() == 0 ==> (configured(configurations, start, end) <==> start == end),
        configurations.len() > 0 ==> (configured(configurations, start, end) <==> exists|mid: T|
            #[trigger] call_ensures(configurations[0], (start,), mid) && configured(
                configurations.skip(1),
                mid,
                end,
            )),
{
}

/// [`configurable`], written out one step.
pub proof fn configurable_unfold<T, C: FnOnce(T) -> T>(configurations: Seq<C>, start: T)
    ensures
        configurations.len() == 0 ==> configurable(configurations, start),
        configurations.len() > 0 ==> (configurable(configurations, start) <==> call_requires(
            configurations[0],
            (start,),
        ) && forall|mid: T| #[trigger]
            call_ensures(configurations[0], (start,), mid) ==> configurable(
                configurations.skip(1),
                mid,
            )),
{
}

enum State<T, L, C> {
    Poisoned,
    Init { lazy: L, configurations: VecDeque<C> },
    Available(T),
}

impl<T, L: FnOnce() -> T, C: FnOnce(T) -> T> State<T, L, C> {
    spec fn model(self) -> ConfigureView<T, L, C> {
        match self {
            State::Poisoned => ConfigureView::Poisoned,
            State::Init { lazy, configurations } => ConfigureView::Init {
                lazy,
                configurations: configurations@,
            },
            State::Available(value) => ConfigureView::Available(value),
        }
    }

    fn get_or_init(&mut self) -> (value: &mut T)
        requires
            !(old(self).model() is Poisoned),
            old(self).model() matches ConfigureView::Init { lazy, configurations } ==> creatable(
                lazy,
                configurations,
            ),
        ensures
            match old(self).model() {
                ConfigureView::Available(before) => *value == before,
                ConfigureView::Init { lazy, configurations } => created(
                    lazy,
                    configurations,
                    *value,
                ),
                ConfigureView::Poisoned => false,
            },
            final(self).model() == ConfigureView::<T, L, C>::Available(*final(value)),
    {
        self.init();
        match self {
            State::Available(value) => value,
            _ => vstd::pervasive::unreached(),
        }
    }

    fn init(&mut self)
        requires
            !(old(self).model() is Poisoned),
            old(self).model() matches ConfigureView::Init { lazy, configurations } ==> creatable(
                lazy,
                configurations,
            ),
        ensures
            match old(self).model() {
                ConfigureView::Available(before) => final(self).model() == old(self).model(),
                ConfigureView::Init { lazy, configurations } => final(self).model()
                    matches ConfigureView::Available(value) && created(lazy, configurations, value),
                ConfigureView::Poisoned => false,
            },
    {
        let mut taken = State::Poisoned;
        core::mem::swap(self, &mut taken);
        match taken {
            State::Init { lazy, configurations } => {
                let ghost all = configurations@;
                let mut waiting = configurations;
                let mut t = lazy();
                let ghost fresh = t;
                while waiting.len() > 0
                    invariant
                        configurable(waiting@, t),
                        forall|end: T| configured(waiting@, t, end) ==> configured(all, fresh, end),
                    decreases waiting@.len(),
                {
                    let ghost before = t;
                    let ghost left = waiting@;
                    let configuration = waiting.pop_front().unwrap();
                    assert(configuration == left[0]);
                    t = configuration(t);
                    assert(call_ensures(left[0], (before,), t));
                    proof {
                        assert(waiting@ =~= left.skip(1));
                        assert forall|end: T| configured(waiting@, t, end) implies configured(
                            all,
                            fresh,
                            end,
                        ) by {
                            assert(configured(left, before, end));
                        }
                    }
                }
                assert(configured(waiting@, t, t));
                *self = State::Available(t);
            },
            State::Available(value) => {
                *self = State::Available(value);
            },
            State::Poisoned => {},
        }
    }

    fn get(&self) -> (value: Option<&T>)
        ensures
            match self.model() {
                ConfigureView::Available(inner) => value == Some(&inner),
                _ => value is None,
            },
    {
        match self {
            State::Available(v) => Some(v),
            _ => None,
        }
    }

    fn get_mut(&mut self) -> (value: Option<&mut T>)
        ensures
            match old(self).model() {
                ConfigureView::Available(inner) => value matches Some(v) && *v == inner
                    && final(self).model() == ConfigureView::<T, L, C>::Available(*final(v)),
                _ => value is None && final(self).model() == old(self).model(),
            },
    {
        match self {
            State::Available(v) => Some(v),
            _ => None,
        }
    }
}

/// A lazy type that gets configured on creation.
pub struct ConfigureOnCreate<T, L, C> {
    state: State<T, L, C>,
}

impl<T, L: FnOnce() -> T, C: FnOnce(T) -> T> View for ConfigureOnCreate<T, L, C> {
    type V = ConfigureView<T, L, C>;

    closed spec fn view(&self) -> ConfigureView<T, L, C> {
        self.state.model()
    }
}

impl<T, L: FnOnce() -> T, C: FnOnce(T) -> T> ConfigureOnCreate<T, L, C> {
    /// Create a new `ConfigureOnCreate` object. Nothing is created yet: `f` waits
    /// for the first call of [`Self::init_and_get`].
    pub fn new(f: L) -> (fresh: Self)
        ensures
            fresh@ == (ConfigureView::<T, L, C>::Init { lazy: f, configurations: Seq::empty() }),
    {
        Self { state: State::Init { lazy: f, configurations: VecDeque::new() } }
    }

    /// Initializes and gets the inner object, running all configurations if
    /// necessary, oldest first. A value that was created before is handed out
    /// as it is.
    pub fn init_and_get(&mut self) -> (value: &mut T)
        requires
            !(old(self)@ is Poisoned),
            old(self)@ matches ConfigureView::Init { lazy, configurations } ==> creatable(
                lazy,
                configurations,
            ),
        ensures
            match old(self)@ {
                ConfigureView::Available(before) => *value == before,
                ConfigureView::Init { lazy, configurations } => created(
                    lazy,
                    configurations,
                    *value,
                ),
                ConfigureView::Poisoned => false,
            },
            final(self)@ == ConfigureView::<T, L, C>::Available(*final(value)),
    {
        self.state.get_or_init()
    }

    /// Gets the inner data if it has been created.
    pub fn get(&self) -> (value: Option<&T>)
        ensures
            match self@ {
                ConfigureView::Available(inner) => value == Some(&inner),
                _ => value is None,
            },
    {
        self.state.get()
    }

    /// Gets the inner data as a mutable reference if it has been created.
    pub fn get_mut(&mut self) -> (value: Option<&mut T>)
        ensures
            match old(self)@ {
                ConfigureView::Available(inner) => value matches Some(v) && *v == inner
                    && final(self)@ == ConfigureView::<T, L, C>::Available(*final(v)),
                _ => value is None && final(self)@ == old(self)@,
            },
    {
        self.state.get_mut()
    }

    /// Configures the inner object: at once if it has been created, and when it
    /// is created otherwise, after the configurations given before.
    pub fn configure(&mut self, f: C)
        requires
            !(old(self)@ is Poisoned),
            old(self)@ matches ConfigureView::Available(value) ==> call_requires(f, (value,)),
        ensures
            match old(self)@ {
                ConfigureView::Poisoned => false,
                ConfigureView::Init { lazy, configurations } => final(self)@ == (
                ConfigureView::<T, L, C>::Init { lazy, configurations: configurations.push(f) }),
                ConfigureView::Available(before) => final(self)@ matches ConfigureView::Available(
                    after,
                ) && call_ensures(f, (before,), after),
            },
    {
        let mut taken = State::Poisoned;
        core::mem::swap(&mut self.state, &mut taken);
        match taken {
            State::Poisoned => {},
            State::Init { lazy, configurations } => {
                let mut configurations = configurations;
                configurations.push_back(f);
                self.state = State::Init { lazy, configurations };
            },
            State::Available(value) => {
                self.state = State::Available(f(value));
            },
        }
    }

    /// Checks if the data in this is initialized.
    pub fn is_init(&self) -> (yes: bool)
        ensures
            yes == (self@ is Available),
    {
        match &self.state {
            State::Available(_) => true,
            _ => false,
        }
    }
}

} // verus!
