//! The ways in which a piece of a build may end early.

use vstd::prelude::*;

verus! {

/// An error occurred in a task.
#[derive(Debug)]
pub enum BuildErr<E> {
    /// A failure.
    Fail(E),
    /// The action stops; the error, if there is one, says why.
    StopAction(Option<E>),
    /// The task stops; the error, if there is one, says why.
    StopTask(Option<E>),
}

/// `mapped` is what mapping the error inside `before` with `f` may give: the
/// same way of ending, around what `f` makes of the error.
pub open spec fn maps_to<E, E2, F: FnOnce(E) -> E2>(
    before: BuildErr<E>,
    f: F,
    mapped: BuildErr<E2>,
) -> bool {
    match before {
        BuildErr::Fail(e) => mapped matches BuildErr::Fail(e2) && call_ensures(f, (e,), e2),
        BuildErr::StopAction(None) => mapped == BuildErr::<E2>::StopAction(None),
        BuildErr::StopAction(Some(e)) => mapped matches BuildErr::StopAction(Some(e2))
            && call_ensures(f, (e,), e2),
        BuildErr::StopTask(None) => mapped == BuildErr::<E2>::StopTask(None),
        BuildErr::StopTask(Some(e)) => mapped matches BuildErr::StopTask(Some(e2))
            && call_ensures(f, (e,), e2),
    }
}

/// The error inside, if there is one.
pub open spec fn inner<E>(err: BuildErr<E>) -> Option<E> {
    match err {
        BuildErr::Fail(e) => Some(e),
        BuildErr::StopAction(e) => e,
        BuildErr::StopTask(e) => e,
    }
}

impl<E> BuildErr<E> {
    /// Maps the inner error. Where there is none, `f` is not called.
    pub fn map<E2, F: FnOnce(E) -> E2>(self, f: F) -> (mapped: BuildErr<E2>)
        requires
            inner(self) matches Some(e) ==> call_requires(f, (e,)),
        ensures
            maps_to(self, f, mapped),
    {
        match self {
            BuildErr::Fail(e) => BuildErr::Fail(f(e)),
            BuildErr::StopAction(e) => match e {
                Some(e) => BuildErr::StopAction(Some(f(e))),
                None => BuildErr::StopAction(None),
            },
            BuildErr::StopTask(e) => match e {
                Some(e) => BuildErr::StopTask(Some(f(e))),
                None => BuildErr::StopTask(None),
            },
        }
    }

    /// Converts the inner error into another type of error.
    pub fn into<E2>(self) -> (mapped: BuildErr<E2>) where E: Into<E2>
        ensures
            maps_to(self, <E as Into<E2>>::into, mapped),
    {
        self.map(<E as Into<E2>>::into)
    }

    /// Converts the inner error from another type of error.
    pub fn from<E2>(this: BuildErr<E2>) -> (mapped: BuildErr<E>) where E: From<E2>
        ensures
            maps_to(this, <E as From<E2>>::from, mapped),
    {
        this.map(<E as From<E2>>::from)
    }

    /// A failure with the given error.
    pub fn fail(value: E) -> (err: Self)
        ensures
            err == BuildErr::Fail(value),
    {
        BuildErr::Fail(value)
    }
}

pub type BuildResult<T, E> = Result<T, BuildErr<E>>;

} // verus!
