use spider_core::error::{Error, ErrorKind};
use spider_core::finalized::Finalize;
use spider_core::named::Named;
use spider_core::project::Project;
use spider_core::table::Table;
use spider_core::task::tasks::DefaultTask;
use spider_core::task::{Construct, Task, TaskAction, TaskActions, TaskError, TaskPrototype};
use std::sync::Arc;

enum Step {
    ReadHello,
    ExpectV(i32),
    Log(&'static str),
    StopAction,
    StopTask,
    Fail(&'static str),
}

fn log(table: &mut Table, letter: &str) {
    let mut seen = table.get::<String>("log").cloned().unwrap_or_default();
    seen.push_str(letter);
    table.set("log", seen);
}

impl TaskAction for Step {
    fn execute(&self, table: &mut Table) -> Result<(), TaskError> {
        match self {
            Step::ReadHello => {
                table.get::<&str>("hello").map_err(|e| TaskError::fail(Error::from_table(e)))?;
                Ok(())
            }
            Step::ExpectV(v) => {
                let x = table.get::<i32>("v").unwrap();
                println!("v: {:?}", x);
                assert_eq!(*x, *v);
                Ok(())
            }
            Step::Log(letter) => {
                log(table, letter);
                Ok(())
            }
            Step::StopAction => {
                log(table, "a");
                TaskActions.stop_action()
            }
            Step::StopTask => {
                log(table, "t");
                TaskActions.stop_task()
            }
            Step::Fail(why) => {
                log(table, "f");
                TaskActions::fail(Error::new(ErrorKind::custom(*why)))
            }
        }
    }
}

enum Setup {
    SetV(i32),
    SquareV,
    Fail,
}

impl Construct<Step> for Setup {
    fn construct(&self, task: &mut Task<Step>, _defaults: &Table) -> Result<(), Error> {
        match self {
            Setup::SetV(v) => {
                task.table_mut().set("v", *v);
                Ok(())
            }
            Setup::SquareV => {
                let v = *task.get::<i32>("v")?;
                task.table_mut().set("v", v * v);
                Ok(())
            }
            Setup::Fail => Err(Error::new(ErrorKind::custom("cannot construct"))),
        }
    }
}

#[test]
fn test_run_task() {
    let mut task = Task::new("test".to_string());
    task.table_mut().set("hello", "hello");
    task.do_first(Step::ReadHello);
    task.run().expect("run failed");
}

#[test]
fn test_task_prototype() {
    let mut prototype: TaskPrototype<Step, Setup> = TaskPrototype::new(None);
    prototype.set_task_action(Step::ExpectV(3));
    prototype.set_constructor(Setup::SetV(3));
    let mut spawn = prototype.build("task", &Project::new()).expect("could not build task");
    let a: i32 = *spawn.table().get("v").unwrap();
    assert_eq!(a, 3);
    spawn.run().expect("could not run task");
}

#[test]
fn test_task_prototype_parent() {
    let mut prototype: TaskPrototype<Step, Setup> = TaskPrototype::new(None);
    prototype.set_task_action(Step::ExpectV(3));
    prototype.set_constructor(Setup::SetV(3));

    let mut child = TaskPrototype::new(Some(Arc::new(prototype)));
    child.set_task_action(Step::ExpectV(9));
    child.set_constructor(Setup::SquareV);

    let mut spawn = child.build("task", &Project::new()).expect("could not build task");
    let a: i32 = *spawn.table().get("v").unwrap();
    assert_eq!(a, 9);
    spawn.run().expect("could not run task");
    assert_eq!(*spawn.table().metatable().unwrap().get::<i32>("v").unwrap(), 3);
}

fn logged(task: &Task<Step>) -> String {
    task.table().get::<String>("log").cloned().unwrap_or_default()
}

#[test]
fn actions_run_in_queue_order() {
    let mut task = Task::new("order".to_string());
    task.do_last(Step::Log("A"));
    task.do_last(Step::Log("B"));
    task.do_first(Step::Log("C"));
    task.run().unwrap();
    assert_eq!(logged(&task), "CAB");
    assert_eq!(task.name(), "order");
}

#[test]
fn stop_action_goes_on_with_the_next_action() {
    let mut task = Task::new("t".to_string());
    task.do_last(Step::Log("1"));
    task.do_last(Step::StopAction);
    task.do_last(Step::Log("2"));
    assert!(task.run().is_ok());
    assert_eq!(logged(&task), "1a2");
}

#[test]
fn stop_task_ends_the_run_without_error() {
    let mut task = Task::new("t".to_string());
    task.do_last(Step::Log("1"));
    task.do_last(Step::StopTask);
    task.do_last(Step::Log("2"));
    assert!(task.run().is_ok());
    assert_eq!(logged(&task), "1t");
}

#[test]
fn fail_raises_the_error_and_skips_the_rest() {
    let mut task = Task::new("t".to_string());
    task.do_last(Step::Log("1"));
    task.do_last(Step::Fail("broken"));
    task.do_last(Step::Log("2"));
    match task.run() {
        Err(Error { kind: ErrorKind::Custom { error } }) => assert_eq!(error.0, "broken"),
        other => panic!("unexpected {:?}", other),
    }
    assert_eq!(logged(&task), "1f");
}

#[test]
fn an_empty_task_runs() {
    let mut task: Task<DefaultTask> = Task::new("idle".to_string());
    assert!(task.run().is_ok());
    task.do_first(DefaultTask);
    assert!(task.run().is_ok());
    assert_eq!(task.table().len(), 0);
}

#[test]
fn nearest_task_action_wins() {
    let mut oldest: TaskPrototype<Step, Setup> = TaskPrototype::new(None);
    assert!(oldest.task_action().is_none());
    oldest.set_task_action(Step::Log("old"));
    let middle = TaskPrototype::new(Some(Arc::new(oldest)));
    assert!(matches!(**middle.task_action().unwrap(), Step::Log("old")));
    let mut child = TaskPrototype::new(Some(Arc::new(middle)));
    child.set_task_action(Step::Log("new"));
    assert!(matches!(**child.task_action().unwrap(), Step::Log("new")));
    let mut task = child.build("t", &Project::new()).unwrap();
    task.run().unwrap();
    assert_eq!(logged(&task), "new");
}

#[test]
fn prototype_tables_are_defaults() {
    let mut parent: TaskPrototype<Step, Setup> = TaskPrototype::new(None);
    parent.table_mut().set("level", "parent");
    parent.table_mut().set("only", 1_u32);
    let mut child = TaskPrototype::new(Some(Arc::new(parent)));
    child.table_mut().set("level", "child");
    assert_eq!(*child.table().get::<&str>("level").unwrap(), "child");
    assert_eq!(*child.table().get::<u32>("only").unwrap(), 1);
    let task = child.build("t", &Project::new()).unwrap();
    assert_eq!(*task.table().get::<&str>("level").unwrap(), "child");
    assert_eq!(*task.table().get::<u32>("only").unwrap(), 1);
}

#[test]
fn a_failing_constructor_fails_the_build() {
    let mut parent: TaskPrototype<Step, Setup> = TaskPrototype::new(None);
    parent.set_constructor(Setup::Fail);
    let mut child = TaskPrototype::new(Some(Arc::new(parent)));
    child.set_constructor(Setup::SetV(1));
    match child.build("t", &Project::new()) {
        Err(Error { kind: ErrorKind::Custom { error } }) => assert_eq!(error.0, "cannot construct"),
        Ok(_) => panic!("built"),
        Err(other) => panic!("unexpected {:?}", other),
    }
    let lonely: TaskPrototype<Step, Setup> = {
        let mut p = TaskPrototype::new(None);
        p.set_constructor(Setup::SquareV);
        p
    };
    assert!(matches!(
        lonely.build("t", &Project::new()).err().unwrap().kind,
        ErrorKind::TableError(_)
    ));
}

#[test]
fn test_custom_error() {
    let error = Error::new(ErrorKind::custom("error!"));
    println!("{:?}", error);
    match error.kind {
        ErrorKind::Custom { error } => assert_eq!(error.0, "error!"),
        other => panic!("unexpected {:?}", other),
    }
}

#[test]
fn finalize_stops_writing() {
    let mut value = Finalize::new(vec![1]);
    assert!(!value.is_finalized());
    value.get_mut().push(2);
    value.try_get_mut().unwrap().push(3);
    assert_eq!(*value, vec![1, 2, 3]);
    value.finalize();
    assert!(value.is_finalized());
    assert!(value.try_get_mut().is_none());
    assert_eq!(value.get().len(), 3);
    value.finalize();
    assert!(value.is_finalized());
}

#[test]
fn task_actions_helpers() {
    assert!(matches!(TaskActions.stop_action(), Err(TaskError::StopAction(None))));
    assert!(matches!(TaskActions.stop_task(), Err(TaskError::StopTask(None))));
    assert!(matches!(
        TaskActions::fail(Error::new(ErrorKind::custom("x"))),
        Err(TaskError::Fail(_))
    ));
}

type Configure = Box<dyn FnOnce(Task<Step>) -> Task<Step>>;

#[test]
fn project_test_register_task() {
    let project = Project::new();
    assert_eq!(project.tasks().len(), 0);
}

#[test]
fn container_test_register_task() {
    let mut project = Project::new();
    let t = project
        .tasks_mut()
        .register::<Task<Step>, _, Configure>("test", || Task::new("test".to_string()));
    assert_eq!(t.name(), "test");
    assert_eq!(project.tasks().len(), 1);
}

#[test]
fn test_create_task_provider() {
    let mut project = Project::new();
    let mut provider = project
        .tasks_mut()
        .register::<Task<Step>, _, Configure>("built", || Task::new("built".to_string()));
    provider
        .configure(Box::new(|mut task| {
            task.do_last(Step::Log("x"));
            task
        }))
        .configure(Box::new(|mut task| {
            task.do_last(Step::Log("y"));
            task
        }));
    let task = provider.get();
    assert_eq!(task.name(), "built");
    assert_eq!(task.action_count(), 2);
    task.run().unwrap();
    assert_eq!(logged(task), "xy");
    assert_eq!(provider.name(), "built");
}
