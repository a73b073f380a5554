//! A container of tasks: the place where tasks are registered.

use vstd::prelude::*;
use crate::lazy::configure::{ConfigureOnCreate, ConfigureView};
use crate::named::Named;
use crate::task::provider::TaskProvider;
use crate::text::owned;

verus! {

/// A task container. It keeps the names under which tasks were registered,
/// oldest first.
#[derive(Debug)]
pub struct TaskContainer {
    names: Vec<String>,
}

impl View for TaskContainer {
    type V = Seq<Seq<char>>;

    closed spec fn view(&self) -> Seq<Seq<char>> {
        Seq::new(self.names@.len(), |i: int| self.names@[i]@)
    }
}

impl TaskContainer {
    /// A container without tasks.
    pub fn new() -> (container: Self)
        ensures
            container@ == Seq::<Seq<char>>::empty(),
    {
        let container = Self { names: Vec::new() };
        assert(container@ =~= Seq::<Seq<char>>::empty());
        container
    }

    /// Registers a task under a name. The task is not created yet: `create`
    /// waits in the provider that is handed out, with the configurations that
    /// the provider is given.
    pub fn register<T, L: FnOnce() -> T, C: FnOnce(T) -> T>(
        &mut self,
        name: &str,
        create: L,
    ) -> (provider: TaskProvider<T, L, C>)
        ensures
            final(self)@ == old(self)@.push(name@),
            provider.name_of() == name@,
            provider.task() == (ConfigureView::<T, L, C>::Init {
                lazy: create,
                configurations: Seq::empty(),
            }),
    {
        self.names.push(owned(name));
        assert(self@ =~= old(self)@.push(name@));
        TaskProvider::new(name, ConfigureOnCreate::new(create))
    }

    /// The number of registered tasks.
    pub fn len(&self) -> (n: usize)
        ensures
            n == self@.len(),
    {
        self.names.len()
    }
}

} // verus!
