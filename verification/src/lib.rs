//! Configuration-time core of a build tool: a registry of named, typed beans,
//! lazy providers and properties, and tasks that inherit configuration through
//! a chain of prototypes.
//!
//! Every executable function carries a contract over a mathematical model of
//! the data it works on, and the verifier proves the body against it.
//!
//! # Values of many types in one store
//!
//! Tables and the bean registry hold values of different types side by side.
//! A stored value is a [`value::Value`], a tagged union over the types that
//! implement [`value::Typed`]; reading it back at a type checks the tag, so a
//! request for the wrong type is an error and never a reinterpreted value.
//!
//! # Functions as values
//!
//! Sources of providers, constructors of beans and configurations are
//! functions of any type that the caller picks, and their contracts are stated
//! over what those functions require and ensure. What works on a table in place
//! — a task action, the constructor of a task prototype — is a type that
//! implements [`task::TaskAction`] or [`task::Construct`], and says in its own
//! words what it may do.
//!
//! # Sharing
//!
//! A [`lazy::providers::Provider`] is a handle on a memo cell that its clones
//! share; the cell is guarded by a lock whose invariant ties what it holds to
//! the source it was made with. A [`lazy::properties::Property`] is a handle on
//! a state that its clones share behind a mutex. The registry and the tasks are
//! plain values: exclusive access to them is `&mut`.

pub mod action;
pub mod text;
pub mod value;
pub mod entries;
pub mod table;
pub mod beans;
pub mod err;
pub mod error;
pub mod finalized;
pub mod from_state;
pub mod invocation;
pub mod named;
pub mod lazy;
pub mod project;
pub mod task;
