//! The standard task actions.

use vstd::prelude::*;
use crate::beans::NoBeans;
use crate::table::{Table, TableView};
use crate::task::TaskAction;

verus! {

/// Default task, no-op by default.
#[derive(Default, Debug, Clone, Copy)]
pub struct DefaultTask;

impl NoBeans for DefaultTask {
}

impl TaskAction for DefaultTask {
    /// Nothing changes, and the action succeeds.
    open spec fn outcome(
        &self,
        before: TableView,
        after: TableView,
        result: crate::task::Result,
    ) -> bool {
        before == after && result is Ok
    }

    fn execute(&self, table: &mut Table) -> (result: crate::task::Result) {
        Ok(())
    }
}

} // verus!
