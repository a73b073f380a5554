//! A [`TaskProvider`]: a named task that is created when it is first needed.

use vstd::prelude::*;
use crate::lazy::configure::{created, creatable, ConfigureOnCreate, ConfigureView};
use crate::named::Named;
use crate::text::owned;

verus! {

/// A task under a name, with the configurations that wait for its creation.
pub struct TaskProvider<T, L, C> {
    name: String,
    inner: ConfigureOnCreate<T, L, C>,
}

impl<T, L: FnOnce() -> T, C: FnOnce(T) -> T> TaskProvider<T, L, C> {
    /// The task, created or not, with what waits for it.
    pub closed spec fn task(&self) -> ConfigureView<T, L, C> {
        self.inner@
    }

    /// Create a new task provider with a given construction.
    pub fn new(name: &str, configure_on_create: ConfigureOnCreate<T, L, C>) -> (provider: Self)
        ensures
            provider.name_of() == name@,
            provider.task() == configure_on_create@,
    {
        Self { name: owned(name), inner: configure_on_create }
    }

    /// Configures the task: at once if it has been created, and when it is
    /// created otherwise, after the configurations given before.
    pub fn configure(&mut self, f: C) -> (this: &mut Self)
        requires
            !(old(self).task() is Poisoned),
            old(self).task() matches ConfigureView::Available(value) ==> call_requires(f, (value,)),
        ensures
            *final(this) == *final(self),
            this.name_of() == old(self).name_of(),
            match old(self).task() {
                ConfigureView::Poisoned => false,
                ConfigureView::Init { lazy, configurations } => this.task() == (
                ConfigureView::<T, L, C>::Init { lazy, configurations: configurations.push(f) }),
                ConfigureView::Available(before) => this.task() matches ConfigureView::Available(
                    after,
                ) && call_ensures(f, (before,), after),
            },
    {
        self.inner.configure(f);
        self
    }

    /// Creates the task if it has not been created, running all configurations,
    /// and hands it out.
    pub fn get(&mut self) -> (task: &mut T)
        requires
            !(old(self).task() is Poisoned),
            old(self).task() matches ConfigureView::Init { lazy, configurations } ==> creatable(
                lazy,
                configurations,
            ),
        ensures
            match old(self).task() {
                ConfigureView::Available(before) => *task == before,
                ConfigureView::Init { lazy, configurations } => created(
                    lazy,
                    configurations,
                    *task,
                ),
                ConfigureView::Poisoned => false,
            },
            final(self).task() == ConfigureView::<T, L, C>::Available(*final(task)),
            final(self).name_of() == old(self).name_of(),
    {
        self.inner.init_and_get()
    }
}

impl<T, L: FnOnce() -> T, C: FnOnce(T) -> T> Named for TaskProvider<T, L, C> {
    closed spec fn name_of(&self) -> Seq<char> {
        self.name@
    }

    fn name(&self) -> (name: &str) {
        self.name.as_str()
    }
}

} // verus!
