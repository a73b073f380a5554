//! A project: the owner of a task container.

use vstd::prelude::*;
use crate::task::container::TaskContainer;

verus! {

/// A project.
#[derive(Debug)]
pub struct Project {
    tasks: TaskContainer,
}

impl Project {
    /// The names of the tasks of the project, in the order of registration.
    pub closed spec fn task_names(&self) -> Seq<Seq<char>> {
        self.tasks@
    }

    /// A project without tasks.
    pub fn new() -> (project: Self)
        ensures
            project.task_names() == Seq::<Seq<char>>::empty(),
    {
        Self { tasks: TaskContainer::new() }
    }

    /// The tasks of the project.
    pub fn tasks(&self) -> (tasks: &TaskContainer)
        ensures
            tasks@ == self.task_names(),
    {
        &self.tasks
    }

    /// The tasks of the project, for registering.
    pub fn tasks_mut(&mut self) -> (tasks: &mut TaskContainer)
        ensures
            tasks@ == old(self).task_names(),
            final(self).task_names() == final(tasks)@,
    {
        &mut self.tasks
    }
}

} // verus!
