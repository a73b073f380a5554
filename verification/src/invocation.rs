//! What an invocation hands to the core.

pub mod compiler;
