//! Task prototypes: templates that tasks are built from.
//!
//! A prototype has at most one parent. Its table has the parent's table as
//! metatable, so that what the parent configures is the default of the child.
//! Building a task runs the constructors of the whole chain, the oldest
//! ancestor's first, each on a fresh layer of the task's table.

use vstd::prelude::*;
use std::sync::Arc;
use crate::error::Error;
use crate::project::Project;
use crate::table::{Table, TableView};
use crate::task::task::{Task, TaskView};
use crate::task::TaskAction;
use crate::text::owned;

verus! {

/// What a prototype does to a task that is built from it.
pub trait Construct<A: TaskAction> {
    /// Constructing on a task that reads `before`, with the prototype's table
    /// reading `defaults`, may leave the task reading `after` and give
    /// `result`. A constructor that does not say more may leave any task and
    /// give any result.
    open spec fn built(
        &self,
        before: TaskView<A>,
        after: TaskView<A>,
        defaults: TableView,
        result: core::result::Result<(), Error>,
    ) -> bool {
        true
    }

    /// Configures the task.
    fn construct(&self, task: &mut Task<A>, defaults: &Table) -> (result: core::result::Result<
        (),
        Error,
    >)
        requires
            old(task)@.table.wf(),
            defaults@.wf(),
        ensures
            final(task)@.table.wf(),
            self.built(old(task)@, final(task)@, defaults@, result),
    ;
}

/// The model of a prototype: the model of its parent, its table, its
/// constructor if one was set, and its task action if one was set.
pub struct PrototypeView<A, C> {
    pub parent: Option<Box<PrototypeView<A, C>>>,
    pub table: TableView,
    pub constructor: Option<C>,
    pub task_action: Option<A>,
}

/// Marks one step of a build in the definition of
/// [`PrototypeView::constructs`].
pub open spec fn layer<A>(mid: TaskView<A>, first: core::result::Result<(), Error>) -> bool {
    true
}

/// The task with a fresh, empty layer on top of its table.
pub open spec fn layered<A>(task: TaskView<A>) -> TaskView<A> {
    TaskView {
        table: TableView { local: Seq::empty(), parent: Some(Box::new(task.table)) },
        ..task
    }
}

impl<A: TaskAction, C: Construct<A>> PrototypeView<A, C> {
    /// The tables of the whole chain are valid.
    pub open spec fn wf(self) -> bool
        decreases self,
    {
        self.table.wf() && match self.parent {
            Some(parent) => parent.wf(),
            None => true,
        }
    }

    /// The task action of the prototype: its own, or else the one of the
    /// nearest ancestor that has one.
    pub open spec fn resolved_action(self) -> Option<A>
        decreases self,
    {
        match self.task_action {
            Some(action) => Some(action),
            None => match self.parent {
                Some(parent) => parent.resolved_action(),
                None => None,
            },
        }
    }

    /// What the prototype's own constructor may do: what was set, or nothing
    /// where none was set.
    pub open spec fn own_constructs(
        self,
        before: TaskView<A>,
        after: TaskView<A>,
        result: core::result::Result<(), Error>,
    ) -> bool {
        match self.constructor {
            Some(constructor) => constructor.built(before, after, self.table, result),
            None => after == before && result is Ok,
        }
    }

    /// Running the constructors of the chain on a task that reads `before` may
    /// leave it reading `after` and give `result`.
    ///
    /// The parent's chain runs first. If it fails, its error is the result and
    /// nothing more is done. Otherwise the task's table gets a fresh layer on
    /// top, and the prototype's own constructor runs.
    pub open spec fn constructs(
        self,
        before: TaskView<A>,
        after: TaskView<A>,
        result: core::result::Result<(), Error>,
    ) -> bool
        decreases self,
    {
        match self.parent {
            None => self.own_constructs(before, after, result),
            Some(parent) => exists|mid: TaskView<A>, first: core::result::Result<(), Error>|
                #[trigger] layer(mid, first) && parent.constructs(before, mid, first)
                    && match first {
                    Err(error) => after == mid && result == Err::<(), Error>(error),
                    Ok(_) => self.own_constructs(layered(mid), after, result),
                },
        }
    }

    /// The task that a build starts from: the name, the resolved task action as
    /// the only action if there is one, and an empty table on top of the
    /// prototype's table.
    pub open spec fn blank(self, name: Seq<char>) -> TaskView<A> {
        TaskView {
            name,
            actions: match self.resolved_action() {
                Some(action) => seq![Some(action)],
                None => Seq::empty(),
            },
            table: TableView { local: Seq::empty(), parent: Some(Box::new(self.table)) },
        }
    }
}

/// A task prototype.
pub struct TaskPrototype<A, C> {
    parent: Option<Arc<TaskPrototype<A, C>>>,
    table: Table,
    constructor: Option<C>,
    task_action: Option<Arc<A>>,
}

impl<A: TaskAction, C: Construct<A>> View for TaskPrototype<A, C> {
    type V = PrototypeView<A, C>;

    closed spec fn view(&self) -> PrototypeView<A, C> {
        self.model()
    }
}

impl<A: TaskAction, C: Construct<A>> TaskPrototype<A, C> {
    spec fn model(self) -> PrototypeView<A, C>
        decreases self,
    {
        PrototypeView {
            parent: match self.parent {
                Some(parent) => Some(Box::new(parent.model())),
                None => None,
            },
            table: self.table@,
            constructor: self.constructor,
            task_action: match self.task_action {
                Some(action) => Some(*action),
                None => None,
            },
        }
    }

    /// Creates a new task prototype with no configuration. Its table is empty
    /// and has the parent's table as metatable.
    pub fn new(parent: Option<Arc<TaskPrototype<A, C>>>) -> (prototype: Self)
        requires
            parent matches Some(p) ==> p@.wf(),
        ensures
            prototype@.wf(),
            prototype@.constructor is None,
            prototype@.task_action is None,
            match parent {
                Some(p) => prototype@.parent == Some(Box::new(p@)) && prototype@.table == (
                TableView { local: Seq::empty(), parent: Some(Box::new(p@.table)) }),
                None => prototype@.parent is None && prototype@.table == TableView::empty(),
            },
    {
        let mut table = Table::new();
        match &parent {
            Some(p) => {
                table.set_metatable(p.table.duplicate());
            },
            None => {},
        }
        Self { parent, table, constructor: None, task_action: None }
    }

    /// The table of the prototype.
    pub fn table(&self) -> (table: &Table)
        ensures
            table@ == self@.table,
    {
        &self.table
    }

    /// The table of the prototype, for writing.
    pub fn table_mut(&mut self) -> (table: &mut Table)
        ensures
            table@ == old(self)@.table,
            final(self)@ == (PrototypeView { table: final(table)@, ..old(self)@ }),
    {
        &mut self.table
    }

    /// Sets the constructor of the prototype.
    pub fn set_constructor(&mut self, f: C)
        ensures
            final(self)@ == (PrototypeView { constructor: Some(f), ..old(self)@ }),
    {
        self.constructor = Some(f);
    }

    /// Gets the task action of the prototype.
    ///
    /// Searches up the task prototype inheritance tree.
    pub fn task_action(&self) -> (action: Option<&Arc<A>>)
        ensures
            match action {
                Some(found) => self@.resolved_action() == Some(**found),
                None => self@.resolved_action() is None,
            },
        decreases self,
    {
        match &self.task_action {
            Some(action) => Some(action),
            None => match &self.parent {
                Some(parent) => parent.task_action(),
                None => None,
            },
        }
    }

    /// Sets the task action.
    pub fn set_task_action(&mut self, a: A)
        ensures
            final(self)@ == (PrototypeView { task_action: Some(a), ..old(self)@ }),
    {
        self.task_action = Some(Arc::new(a));
    }

    /// Runs the constructors of the chain on a task, the oldest ancestor's
    /// first.
    fn construct_chain(&self, task: &mut Task<A>) -> (result: core::result::Result<(), Error>)
        requires
            self@.wf(),
            old(task)@.table.wf(),
        ensures
            final(task)@.table.wf(),
            self@.constructs(old(task)@, final(task)@, result),
        decreases self,
    {
        match &self.parent {
            Some(parent) => {
                let first = parent.construct_chain(task);
                proof {
                    assert(layer(task@, first));
                }
                match first {
                    Err(error) => {
                        return Err(error);
                    },
                    Ok(_) => {},
                }
                let table = task.table().duplicate();
                let mut new_table = Table::new();
                new_table.set_metatable(table);
                task.set_table(new_table);
            },
            None => {},
        }
        match &self.constructor {
            Some(constructor) => constructor.construct(task, &self.table),
            None => Ok(()),
        }
    }

    /// Builds a task from this prototype, for a project. The project is not
    /// read: what the task depends on comes from the prototype chain alone.
    ///
    /// The task starts with the name, with an empty table on top of the
    /// prototype's table, and with the resolved task action, if there is one, as
    /// its first action. Then the constructors of the chain run on it. If one
    /// of them fails, its error is the result.
    pub fn build(&self, name: &str, project: &Project) -> (built: core::result::Result<
        Task<A>,
        Error,
    >)
        requires
            self@.wf(),
        ensures
            match built {
                Ok(task) => task@.table.wf() && self@.constructs(
                    self@.blank(name@),
                    task@,
                    Ok::<(), Error>(()),
                ),
                Err(error) => exists|left: TaskView<A>| #[trigger]
                    self@.constructs(self@.blank(name@), left, Err::<(), Error>(error)),
            },
    {
        let mut task = Task::new(owned(name));
        let mut table = Table::new();
        table.set_metatable(self.table.duplicate());
        task.set_table(table);
        match self.task_action() {
            Some(action) => {
                task.do_first_shared(action.clone());
            },
            None => {},
        }
        assert(task@ == self@.blank(name@));
        let result = self.construct_chain(&mut task);
        match result {
            Ok(_) => {
                assert(result->Ok_0 == ());
                assert(result =~= Ok::<(), Error>(()));
                Ok(task)
            },
            Err(error) => Err(error),
        }
    }
}

impl<A: TaskAction, C: Construct<A>> core::ops::Deref for TaskPrototype<A, C> {
    type Target = Table;

    /// A prototype reads as its table.
    fn deref(&self) -> (table: &Table)
        ensures
            table@ == self@.table,
    {
        &self.table
    }
}

/// [`PrototypeView::constructs`], written out one step.
pub proof fn constructs_unfold<A: TaskAction, C: Construct<A>>(
    prototype: PrototypeView<A, C>,
    before: TaskView<A>,
    after: TaskView<A>,
    result: core::result::Result<(), Error>,
)
    ensures
        prototype.constructs(before, after, result) <==> match prototype.parent {
            None => prototype.own_constructs(before, after, result),
            Some(parent) => exists|mid: TaskView<A>, first: core::result::Result<(), Error>|
                #[trigger] layer(mid, first) && parent.constructs(before, mid, first)
                    && match first {
                    Err(error) => after == mid && result == Err::<(), Error>(error),
                    Ok(_) => prototype.own_constructs(layered(mid), after, result),
                },
        },
{
}

/// Prototype inheritance: the constructor of a child runs after the one of its
/// parent, on a task whose table has a fresh layer on top of what the parent's
/// constructor left.
pub proof fn child_constructs_after_parent<A: TaskAction, C: Construct<A>>(
    child: PrototypeView<A, C>,
    before: TaskView<A>,
    mid: TaskView<A>,
    after: TaskView<A>,
    result: core::result::Result<(), Error>,
)
    requires
        child.parent matches Some(parent) && parent.parent is None && parent.own_constructs(
            before,
            mid,
            Ok(()),
        ),
        child.own_constructs(layered(mid), after, result),
    ensures
        child.constructs(before, after, result),
{
    let parent = child.parent->Some_0;
    assert(parent.constructs(before, mid, Ok(())));
    assert(layer(mid, Ok::<(), Error>(())));
}

/// Through a fresh layer every key reads as it did before: what an ancestor's
/// constructor set is what a descendant's constructor finds.
pub proof fn fresh_layer_reads_through<A>(task: TaskView<A>, key: Seq<char>)
    ensures
        layered(task).table.lookup(key) == task.table.lookup(key),
        layered(task).table.wf() == task.table.wf(),
        layered(task).actions == task.actions,
        layered(task).name == task.name,
{
    assert(!crate::entries::has_key(Seq::<(Seq<char>, crate::value::Value)>::empty(), key));
}

} // verus!
