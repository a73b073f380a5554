//! Beans: named, type-tagged objects, the registry that holds them and the
//! protocol that resolves a constructor's dependencies from it.

pub mod index;
pub mod inject;
pub mod params;
pub mod registry;

pub use self::inject::{
    BeanProvider, BeanProviderExt, FromBeanProvider, Inject, NamedFromBeanProvider, NoBeans,
    WithInject,
};
pub use self::params::{
    BeanParamSet, BeanQueryIter, BeansParam, FromFunction, IdBeans, Multi, QueryData,
    ReadOnlyQueryData, Single,
};
pub use self::registry::{BeanError, BeanMutIter, BeanResult, Beans};
