//! Lazy apis.

pub mod configure;
pub mod list;
pub mod properties;
pub mod provider;
pub mod providers;
pub mod value_source;
