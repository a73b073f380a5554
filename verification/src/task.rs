//! Represents an atomic piece of work in a project.

use vstd::prelude::*;
use crate::error::Error;
use crate::table::{Table, TableView};

pub mod container;
pub mod provider;
pub mod task;
pub mod task_prototypes;
pub mod tasks;

pub use self::container::TaskContainer;
pub use self::provider::TaskProvider;
pub use self::task::Task;
pub use self::task_prototypes::{Construct, TaskPrototype};

verus! {

/// How an action may end other than by success.
#[derive(Debug)]
pub enum TaskError {
    /// The action failed: the task is aborted and the error is reported.
    Fail(Error),
    /// The task ends here, without failing.
    StopTask(Option<Error>),
    /// The action ends here; the task goes on with the next action.
    StopAction(Option<Error>),
}

impl TaskError {
    /// A failure with the given error.
    pub fn fail(e: Error) -> (error: Self)
        ensures
            error == TaskError::Fail(e),
    {
        Self::Fail(e)
    }
}

pub type Result = core::result::Result<(), TaskError>;

/// A single action in a task. An action works on the configuration table of
/// the task that it runs for.
pub trait TaskAction {
    /// Executing the action on a table that reads `before` may leave it reading
    /// `after` and give `result`. An action that does not say more may leave
    /// any table and give any result.
    open spec fn outcome(&self, before: TableView, after: TableView, result: Result) -> bool {
        true
    }

    /// Executes the action.
    fn execute(&self, table: &mut Table) -> (result: Result)
        requires
            old(table)@.wf(),
        ensures
            final(table)@.wf(),
            self.outcome(old(table)@, final(table)@, result),
    ;
}

/// Convenience struct for stopping a task early.
pub struct TaskActions;

impl TaskActions {
    /// Stop the task action.
    pub fn stop_action(&self) -> (result: Result)
        ensures
            result == Err::<(), TaskError>(TaskError::StopAction(None)),
    {
        Err(TaskError::StopAction(None))
    }

    /// Stop the task.
    pub fn stop_task(&self) -> (result: Result)
        ensures
            result == Err::<(), TaskError>(TaskError::StopTask(None)),
    {
        Err(TaskError::StopTask(None))
    }

    /// Fail the task.
    pub fn fail(err: Error) -> (result: Result)
        ensures
            result == Err::<(), TaskError>(TaskError::Fail(err)),
    {
        Err(TaskError::fail(err))
    }
}

} // verus!
