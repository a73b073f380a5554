//! A [`Task`] represents a single, atomic instance of work.

use vstd::prelude::*;
use std::collections::VecDeque;
use std::sync::Arc;
use crate::error::Error;
use crate::named::Named;
use crate::table::{Table, TableView};
use crate::task::{TaskAction, TaskError};

verus! {

/// The model of a task: its name, its action queue, first action first, and
/// its configuration table. An action that was taken out for execution leaves the
/// slot `None`.
pub struct TaskView<A> {
    pub name: Seq<char>,
    pub actions: Seq<Option<A>>,
    pub table: TableView,
}

/// Every slot of the queue holds an action.
pub open spec fn all_pending<A>(actions: Seq<Option<A>>) -> bool {
    forall|i: int| 0 <= i < actions.len() ==> (#[trigger] actions[i]) is Some
}

/// The queue after its first `executed` actions were taken out.
pub open spec fn taken<A>(actions: Seq<Option<A>>, executed: int) -> Seq<Option<A>> {
    Seq::new(
        actions.len(),
        |i: int|
            if i < executed {
                None
            } else {
                actions[i]
            },
    )
}

/// The actions in the slots of a queue.
pub open spec fn pending<A>(actions: Seq<Option<A>>) -> Seq<A> {
    Seq::new(actions.len(), |i: int| actions[i].unwrap())
}

/// Marks one step of a run in the definition of [`runs`].
pub open spec fn step(mid: TableView, outcome: crate::task::Result) -> bool {
    true
}

/// Running the actions in order on a table that reads `start` may leave it
/// reading `end`, give `result` and execute `executed` actions.
///
/// After an action that succeeds or stops itself the run goes on with the next
/// action. After one that stops the task the run ends with success, and after
/// one that fails it ends with that error; the actions behind it are not
/// executed.
pub open spec fn runs<A: TaskAction>(
    actions: Seq<A>,
    start: TableView,
    end: TableView,
    result: core::result::Result<(), Error>,
    executed: int,
) -> bool
    decreases actions.len(),
{
    if actions.len() == 0 {
        start == end && result is Ok && executed == 0
    } else {
        exists|mid: TableView, outcome: crate::task::Result| #[trigger]
            step(mid, outcome) && actions[0].outcome(start, mid, outcome) && match outcome {
                Ok(_) | Err(TaskError::StopAction(_)) => runs(
                    actions.skip(1),
                    mid,
                    end,
                    result,
                    executed - 1,
                ),
                Err(TaskError::StopTask(_)) => end == mid && result is Ok && executed == 1,
                Err(TaskError::Fail(error)) => end == mid && result == Err::<(), Error>(error)
                    && executed == 1,
            }
    }
}

/// [`runs`], written out one step.
pub proof fn runs_unfold<A: TaskAction>(
    actions: Seq<A>,
    start: TableView,
    end: TableView,
    result: core::result::Result<(), Error>,
    executed: int,
)
    ensures
        actions.len() == 0 ==> (runs(actions, start, end, result, executed) <==> start == end
            && result is Ok && executed == 0),
        actions.len() > 0 ==> (runs(actions, start, end, result, executed) <==> exists|
            mid: TableView,
            outcome: crate::task::Result,
        | #[trigger]
            step(mid, outcome) && actions[0].outcome(start, mid, outcome) && match outcome {
                Ok(_) | Err(TaskError::StopAction(_)) => runs(
                    actions.skip(1),
                    mid,
                    end,
                    result,
                    executed - 1,
                ),
                Err(TaskError::StopTask(_)) => end == mid && result is Ok && executed == 1,
                Err(TaskError::Fail(error)) => end == mid && result == Err::<(), Error>(error)
                    && executed == 1,
            }),
{
}

/// A fully configured task.
pub struct Task<A> {
    name: String,
    actions: VecDeque<Option<Arc<A>>>,
    table: Table,
}

impl<A: TaskAction> View for Task<A> {
    type V = TaskView<A>;

    closed spec fn view(&self) -> TaskView<A> {
        TaskView {
            name: self.name@,
            actions: Seq::new(
                self.actions@.len(),
                |i: int|
                    match self.actions@[i] {
                        Some(action) => Some(*action),
                        None => None,
                    },
            ),
            table: self.table@,
        }
    }
}

impl<A: TaskAction> Task<A> {
    /// Creates a new, empty task.
    pub fn new(name: String) -> (task: Self)
        ensures
            task@ == (TaskView::<A> {
                name: name@,
                actions: Seq::empty(),
                table: TableView::empty(),
            }),
    {
        let task = Self { name, actions: VecDeque::new(), table: Table::new() };
        assert(task@.actions =~= Seq::empty());
        task
    }

    /// The configuration table of the task.
    pub fn table(&self) -> (table: &Table)
        ensures
            table@ == self@.table,
    {
        &self.table
    }

    /// The configuration table of the task, for writing.
    pub fn table_mut(&mut self) -> (table: &mut Table)
        ensures
            table@ == old(self)@.table,
            final(self)@ == (TaskView { table: final(table)@, ..old(self)@ }),
    {
        &mut self.table
    }

    /// Replaces the configuration table of the task.
    pub fn set_table(&mut self, table: Table)
        ensures
            final(self)@ == (TaskView { table: table@, ..old(self)@ }),
    {
        self.table = table;
    }

    /// Do the given action first: it goes to the head of the queue.
    pub fn do_first(&mut self, action: A)
        ensures
            final(self)@ == (TaskView {
                actions: seq![Some(action)] + old(self)@.actions,
                ..old(self)@
            }),
    {
        self.actions.push_front(Some(Arc::new(action)));
        assert(self@.actions =~= seq![Some(action)] + old(self)@.actions);
    }

    /// Do the given action, which is shared with its owner, first.
    pub(crate) fn do_first_shared(&mut self, action: Arc<A>)
        ensures
            final(self)@ == (TaskView {
                actions: seq![Some(*action)] + old(self)@.actions,
                ..old(self)@
            }),
    {
        self.actions.push_front(Some(action));
        assert(self@.actions =~= seq![Some(*action)] + old(self)@.actions);
    }

    /// Do the given action last: it goes to the end of the queue.
    pub fn do_last(&mut self, action: A)
        ensures
            final(self)@ == (TaskView {
                actions: old(self)@.actions.push(Some(action)),
                ..old(self)@
            }),
    {
        self.actions.push_back(Some(Arc::new(action)));
        assert(self@.actions =~= old(self)@.actions.push(Some(action)));
    }

    /// The number of slots in the queue, taken or not.
    pub fn action_count(&self) -> (n: usize)
        ensures
            n == self@.actions.len(),
    {
        self.actions.len()
    }

    /// Whether the action in a slot of the queue is still to be executed.
    pub fn is_pending(&self, slot: usize) -> (pending: bool)
        requires
            slot < self@.actions.len(),
        ensures
            pending == (self@.actions[slot as int] is Some),
    {
        self.actions[slot].is_some()
    }

    /// Whether every action of the queue is still to be executed, as in a task
    /// that has not run.
    pub fn is_fresh(&self) -> (fresh: bool)
        ensures
            fresh == all_pending(self@.actions),
    {
        let mut i: usize = 0;
        while i < self.actions.len()
            invariant
                i <= self.actions@.len(),
                forall|j: int| 0 <= j < i ==> (#[trigger] self@.actions[j]) is Some,
            decreases self.actions@.len() - i,
        {
            if self.actions[i].is_none() {
                assert(self@.actions[i as int] is None);
                return false;
            }
            assert(self@.actions[i as int] is Some);
            i += 1;
        }
        true
    }

    /// Runs the task: its actions are taken out of the queue and executed in
    /// queue order, one at a time, until the queue is through, an action stops
    /// the task or an action fails. The actions behind that one stay in their slots.
    pub fn run(&mut self) -> (result: core::result::Result<(), Error>)
        requires
            old(self)@.table.wf(),
            all_pending(old(self)@.actions),
        ensures
            final(self)@.table.wf(),
            final(self)@.name == old(self)@.name,
            exists|executed: int| #[trigger]
                taken(old(self)@.actions, executed) == final(self)@.actions && 0 <= executed
                    <= old(self)@.actions.len() && runs(
                    pending(old(self)@.actions),
                    old(self)@.table,
                    final(self)@.table,
                    result,
                    executed,
                ),
    {
        let ghost queue = self@.actions;
        let ghost all = pending(self@.actions);
        let ghost start = self@.table;
        let action_count = self.actions.len();
        let mut i: usize = 0;
        assert(self@.actions =~= taken(queue, 0));
        assert(all.skip(0) =~= all);
        while i < action_count
            invariant
                i <= action_count,
                queue == old(self)@.actions,
                start == old(self)@.table,
                action_count == queue.len(),
                self.actions@.len() == action_count,
                all == pending(queue),
                all_pending(queue),
                self@.actions == taken(queue, i as int),
                self@.name == old(self)@.name,
                self@.table.wf(),
                forall|end: TableView, result: core::result::Result<(), Error>, k: int|
                    #[trigger] runs(all.skip(i as int), self@.table, end, result, k) ==> runs(
                        all,
                        start,
                        end,
                        result,
                        k + i,
                    ),
            decreases action_count - i,
        {
            let ghost before = self@.table;
            let ghost rest = all.skip(i as int);
            assert(self@.actions[i as int] == queue[i as int]);
            assert(queue[i as int] is Some);
            assert(self.actions@[i as int] is Some);
            let ghost raw = self.actions@;
            let ghost seen = self@.actions;
            let slot = self.actions.remove(i);
            self.actions.insert(i, None);
            let action = slot.unwrap().unwrap();
            assert(*action == all[i as int]);
            proof {
                assert(self.actions@ =~= raw.update(i as int, None));
                assert forall|j: int| 0 <= j < queue.len() implies self@.actions[j] == taken(
                    queue,
                    i + 1,
                )[j] by {
                    if j != i {
                        assert(self.actions@[j] == raw[j]);
                        assert(seen[j] == taken(queue, i as int)[j]);
                    }
                }
                assert(self@.actions =~= taken(queue, i + 1));
            }
            let outcome = action.execute(&mut self.table);
            proof {
                assert(rest[0] == all[i as int]);
                assert(rest.skip(1) =~= all.skip(i + 1));
                assert(step(self@.table, outcome));
            }
            match outcome {
                Err(TaskError::Fail(error)) => {
                    assert(runs(rest, before, self@.table, Err::<(), Error>(error), 1));
                    assert(runs(all, start, self@.table, Err::<(), Error>(error), 1 + i));
                    assert(taken(queue, i + 1) == self@.actions);
                    return Err(error);
                },
                Err(TaskError::StopTask(_)) => {
                    assert(runs(rest, before, self@.table, Ok::<(), Error>(()), 1));
                    assert(runs(all, start, self@.table, Ok::<(), Error>(()), 1 + i));
                    assert(taken(queue, i + 1) == self@.actions);
                    return Ok(());
                },
                _ => {
                    proof {
                        let mid = self@.table;
                        let next = all.skip(i + 1);
                        assert forall|
                            end: TableView,
                            result: core::result::Result<(), Error>,
                            k: int,
                        | #[trigger] runs(next, mid, end, result, k) implies runs(
                            all,
                            start,
                            end,
                            result,
                            k + (i + 1),
                        ) by {
                            assert(step(mid, outcome));
                            assert(runs(rest, before, end, result, k + 1));
                        }
                    }
                },
            }
            i += 1;
        }
        assert(runs(all.skip(i as int), self@.table, self@.table, Ok::<(), Error>(()), 0));
        Ok(())
    }
}

impl<A: TaskAction> core::ops::Deref for Task<A> {
    type Target = Table;

    /// A task reads as its configuration table.
    fn deref(&self) -> (table: &Table)
        ensures
            table@ == self@.table,
    {
        &self.table
    }
}

impl<A: TaskAction> Named for Task<A> {
    open spec fn name_of(&self) -> Seq<char> {
        self@.name
    }

    fn name(&self) -> (name: &str) {
        self.name.as_str()
    }
}

/// Actions `a` and `b` added last, in that turn, and `c` added first after them
/// stand in the queue as `c`, `a`, `b`.
pub proof fn queue_order<A>(a: A, b: A, c: A)
    ensures
        seq![Some(c)] + Seq::<Option<A>>::empty().push(Some(a)).push(Some(b)) == seq![
            Some(c),
            Some(a),
            Some(b),
        ],
        pending(seq![Some(c), Some(a), Some(b)]) == seq![c, a, b],
{
    assert(seq![Some(c)] + Seq::<Option<A>>::empty().push(Some(a)).push(Some(b)) =~= seq![
        Some(c),
        Some(a),
        Some(b),
    ]);
    assert(pending(seq![Some(c), Some(a), Some(b)]) =~= seq![c, a, b]);
}

/// A run of the queue `c`, `a`, `b` in which no action stops or fails executes
/// `c`, then `a`, then `b`: each action works on the table as the one before
/// left it, and the run ends with success after all three.
pub proof fn run_order<A: TaskAction>(
    c: A,
    a: A,
    b: A,
    start: TableView,
    end: TableView,
    result: core::result::Result<(), Error>,
    executed: int,
)
    requires
        runs(seq![c, a, b], start, end, result, executed),
        forall|x: A, before: TableView, after: TableView, outcome: crate::task::Result| #[trigger]
            x.outcome(before, after, outcome) ==> outcome is Ok,
    ensures
        result is Ok,
        executed == 3,
        exists|first: TableView, second: TableView|
            #![trigger c.outcome(start, first, Ok(())), a.outcome(first, second, Ok(()))]
            c.outcome(start, first, Ok(())) && a.outcome(first, second, Ok(())) && b.outcome(
                second,
                end,
                Ok(()),
            ),
{
    let all = seq![c, a, b];
    let (first, o1) = choose|mid: TableView, outcome: crate::task::Result| #[trigger]
        step(mid, outcome) && all[0].outcome(start, mid, outcome) && match outcome {
            Ok(_) | Err(TaskError::StopAction(_)) => runs(
                all.skip(1),
                mid,
                end,
                result,
                executed - 1,
            ),
            Err(TaskError::StopTask(_)) => end == mid && result is Ok && executed == 1,
            Err(TaskError::Fail(error)) => end == mid && result == Err::<(), Error>(error)
                && executed == 1,
        };
    assert(o1 is Ok);
    let rest = all.skip(1);
    assert(rest =~= seq![a, b]);
    let (second, o2) = choose|mid: TableView, outcome: crate::task::Result| #[trigger]
        step(mid, outcome) && rest[0].outcome(first, mid, outcome) && match outcome {
            Ok(_) | Err(TaskError::StopAction(_)) => runs(
                rest.skip(1),
                mid,
                end,
                result,
                executed - 2,
            ),
            Err(TaskError::StopTask(_)) => end == mid && result is Ok && executed == 2,
            Err(TaskError::Fail(error)) => end == mid && result == Err::<(), Error>(error)
                && executed == 2,
        };
    assert(o2 is Ok);
    let last = rest.skip(1);
    assert(last =~= seq![b]);
    let (third, o3) = choose|mid: TableView, outcome: crate::task::Result| #[trigger]
        step(mid, outcome) && last[0].outcome(second, mid, outcome) && match outcome {
            Ok(_) | Err(TaskError::StopAction(_)) => runs(
                last.skip(1),
                mid,
                end,
                result,
                executed - 3,
            ),
            Err(TaskError::StopTask(_)) => end == mid && result is Ok && executed == 3,
            Err(TaskError::Fail(error)) => end == mid && result == Err::<(), Error>(error)
                && executed == 3,
        };
    assert(o3 is Ok);
    assert(last.skip(1).len() == 0);
    assert(o1->Ok_0 == () && o2->Ok_0 == () && o3->Ok_0 == ());
    assert(o1 =~= Ok(()) && o2 =~= Ok(()) && o3 =~= Ok(()));
    assert(c.outcome(start, first, Ok(())) && a.outcome(first, second, Ok(())));
}

/// A run whose first action stops the task ends there with success: no action
/// behind it is executed.
pub proof fn stop_task_halts<A: TaskAction>(
    actions: Seq<A>,
    start: TableView,
    end: TableView,
    result: core::result::Result<(), Error>,
    executed: int,
)
    requires
        actions.len() > 0,
        runs(actions, start, end, result, executed),
        forall|after: TableView, outcome: crate::task::Result| #[trigger]
            actions[0].outcome(start, after, outcome) ==> outcome matches Err(
                TaskError::StopTask(_),
            ),
    ensures
        result is Ok,
        executed == 1,
        exists|outcome: crate::task::Result| #[trigger] actions[0].outcome(start, end, outcome),
{
    let (mid, outcome) = choose|mid: TableView, outcome: crate::task::Result| #[trigger]
        step(mid, outcome) && actions[0].outcome(start, mid, outcome) && match outcome {
            Ok(_) | Err(TaskError::StopAction(_)) => runs(
                actions.skip(1),
                mid,
                end,
                result,
                executed - 1,
            ),
            Err(TaskError::StopTask(_)) => end == mid && result is Ok && executed == 1,
            Err(TaskError::Fail(error)) => end == mid && result == Err::<(), Error>(error)
                && executed == 1,
        };
    assert(actions[0].outcome(start, end, outcome));
}

/// A run whose first action fails ends there with the action's error: no
/// action behind it is executed.
pub proof fn fail_aborts<A: TaskAction>(
    actions: Seq<A>,
    start: TableView,
    end: TableView,
    result: core::result::Result<(), Error>,
    executed: int,
    error: Error,
)
    requires
        actions.len() > 0,
        runs(actions, start, end, result, executed),
        forall|after: TableView, outcome: crate::task::Result| #[trigger]
            actions[0].outcome(start, after, outcome) ==> outcome == Err::<(), TaskError>(
                TaskError::Fail(error),
            ),
    ensures
        result == Err::<(), Error>(error),
        executed == 1,
        actions[0].outcome(start, end, Err(TaskError::Fail(error))),
{
    let (mid, outcome) = choose|mid: TableView, outcome: crate::task::Result| #[trigger]
        step(mid, outcome) && actions[0].outcome(start, mid, outcome) && match outcome {
            Ok(_) | Err(TaskError::StopAction(_)) => runs(
                actions.skip(1),
                mid,
                end,
                result,
                executed - 1,
            ),
            Err(TaskError::StopTask(_)) => end == mid && result is Ok && executed == 1,
            Err(TaskError::Fail(error)) => end == mid && result == Err::<(), Error>(error)
                && executed == 1,
        };
}

/// A run goes on behind an action that stops only itself as it does behind one
/// that succeeds.
pub proof fn stop_action_goes_on<A: TaskAction>(
    actions: Seq<A>,
    start: TableView,
    mid: TableView,
    end: TableView,
    result: core::result::Result<(), Error>,
    executed: int,
    outcome: crate::task::Result,
)
    requires
        actions.len() > 0,
        actions[0].outcome(start, mid, outcome),
        outcome is Ok || outcome matches Err(TaskError::StopAction(_)),
        runs(actions.skip(1), mid, end, result, executed),
    ensures
        runs(actions, start, end, result, executed + 1),
{
    assert(step(mid, outcome));
}

} // verus!
