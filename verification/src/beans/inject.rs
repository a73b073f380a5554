//! Simple [`BeanProvider`] and [`Inject`] traits.

use vstd::prelude::*;
use crate::named::CreateNamed;

verus! {

/// Gets a bean of type `T`.
pub trait BeanProvider<T> {
    /// `bean` is a bean that the provider may hand out. A provider that does
    /// not say more may hand out any bean.
    open spec fn provides(&self, bean: T) -> bool {
        true
    }

    /// Gets the given bean.
    fn get_bean(&self) -> (bean: T)
        ensures
            self.provides(bean),
    ;
}

impl<U> BeanProvider<()> for U {
    open spec fn provides(&self, bean: ()) -> bool {
        true
    }

    fn get_bean(&self) -> (bean: ()) {
    }
}

impl<U: BeanProvider<T1>, T1> BeanProvider<(T1,)> for U {
    open spec fn provides(&self, bean: (T1,)) -> bool {
        &&& BeanProvider::<T1>::provides(self, bean.0)
    }

    fn get_bean(&self) -> (bean: (T1,)) {
        (BeanProvider::<T1>::get_bean(self),)
    }
}

impl<U: BeanProvider<T1> + BeanProvider<T2>, T1, T2> BeanProvider<(T1, T2)> for U {
    open spec fn provides(&self, bean: (T1, T2)) -> bool {
        &&& BeanProvider::<T1>::provides(self, bean.0)
        &&& BeanProvider::<T2>::provides(self, bean.1)
    }

    fn get_bean(&self) -> (bean: (T1, T2)) {
        (BeanProvider::<T1>::get_bean(self), BeanProvider::<T2>::get_bean(self))
    }
}

impl<U: BeanProvider<T1> + BeanProvider<T2> + BeanProvider<T3>, T1, T2, T3> BeanProvider<
    (T1, T2, T3),
> for U {
    open spec fn provides(&self, bean: (T1, T2, T3)) -> bool {
        &&& BeanProvider::<T1>::provides(self, bean.0)
        &&& BeanProvider::<T2>::provides(self, bean.1)
        &&& BeanProvider::<T3>::provides(self, bean.2)
    }

    fn get_bean(&self) -> (bean: (T1, T2, T3)) {
        (
            BeanProvider::<T1>::get_bean(self),
            BeanProvider::<T2>::get_bean(self),
            BeanProvider::<T3>::get_bean(self),
        )
    }
}

impl<
    U: BeanProvider<T1> + BeanProvider<T2> + BeanProvider<T3> + BeanProvider<T4>,
    T1, T2, T3, T4,
> BeanProvider<(T1, T2, T3, T4)> for U {
    open spec fn provides(&self, bean: (T1, T2, T3, T4)) -> bool {
        &&& BeanProvider::<T1>::provides(self, bean.0)
        &&& BeanProvider::<T2>::provides(self, bean.1)
        &&& BeanProvider::<T3>::provides(self, bean.2)
        &&& BeanProvider::<T4>::provides(self, bean.3)
    }

    fn get_bean(&self) -> (bean: (T1, T2, T3, T4)) {
        (
            BeanProvider::<T1>::get_bean(self),
            BeanProvider::<T2>::get_bean(self),
            BeanProvider::<T3>::get_bean(self),
            BeanProvider::<T4>::get_bean(self),
        )
    }
}

impl<
    U: BeanProvider<T1> + BeanProvider<T2> + BeanProvider<T3> + BeanProvider<T4> +
        BeanProvider<T5>,
    T1, T2, T3, T4, T5,
> BeanProvider<(
    T1, T2, T3, T4, T5,
)> for U {
    open spec fn provides(
        &self,
        bean: (
            T1, T2, T3, T4, T5,
        ),
    ) -> bool {
        &&& BeanProvider::<T1>::provides(self, bean.0)
        &&& BeanProvider::<T2>::provides(self, bean.1)
        &&& BeanProvider::<T3>::provides(self, bean.2)
        &&& BeanProvider::<T4>::provides(self, bean.3)
        &&& BeanProvider::<T5>::provides(self, bean.4)
    }

    fn get_bean(&self) -> (bean: (
        T1, T2, T3, T4, T5,
    )) {
        (
            BeanProvider::<T1>::get_bean(self),
            BeanProvider::<T2>::get_bean(self),
            BeanProvider::<T3>::get_bean(self),
            BeanProvider::<T4>::get_bean(self),
            BeanProvider::<T5>::get_bean(self),
        )
    }
}

impl<
    U: BeanProvider<T1> + BeanProvider<T2> + BeanProvider<T3> + BeanProvider<T4> +
        BeanProvider<T5> + BeanProvider<T6>,
    T1, T2, T3, T4, T5, T6,
> BeanProvider<(
    T1, T2, T3, T4, T5, T6,
)> for U {
    open spec fn provides(
        &self,
        bean: (
            T1, T2, T3, T4, T5, T6,
        ),
    ) -> bool {
        &&& BeanProvider::<T1>::provides(self, bean.0)
        &&& BeanProvider::<T2>::provides(self, bean.1)
        &&& BeanProvider::<T3>::provides(self, bean.2)
        &&& BeanProvider::<T4>::provides(self, bean.3)
        &&& BeanProvider::<T5>::provides(self, bean.4)
        &&& BeanProvider::<T6>::provides(self, bean.5)
    }

    fn get_bean(&self) -> (bean: (
        T1, T2, T3, T4, T5, T6,
    )) {
        (
            BeanProvider::<T1>::get_bean(self),
            BeanProvider::<T2>::get_bean(self),
            BeanProvider::<T3>::get_bean(self),
            BeanProvider::<T4>::get_bean(self),
            BeanProvider::<T5>::get_bean(self),
            BeanProvider::<T6>::get_bean(self),
        )
    }
}

impl<
    U: BeanProvider<T1> + BeanProvider<T2> + BeanProvider<T3> + BeanProvider<T4> +
        BeanProvider<T5> + BeanProvider<T6> + BeanProvider<T7>,
    T1, T2, T3, T4, T5, T6, T7,
> BeanProvider<(
    T1, T2, T3, T4, T5, T6, T7,
)> for U {
    open spec fn provides(
        &self,
        bean: (
            T1, T2, T3, T4, T5, T6, T7,
        ),
    ) -> bool {
        &&& BeanProvider::<T1>::provides(self, bean.0)
        &&& BeanProvider::<T2>::provides(self, bean.1)
        &&& BeanProvider::<T3>::provides(self, bean.2)
        &&& BeanProvider::<T4>::provides(self, bean.3)
        &&& BeanProvider::<T5>::provides(self, bean.4)
        &&& BeanProvider::<T6>::provides(self, bean.5)
        &&& BeanProvider::<T7>::provides(self, bean.6)
    }

    fn get_bean(&self) -> (bean: (
        T1, T2, T3, T4, T5, T6, T7,
    )) {
        (
            BeanProvider::<T1>::get_bean(self),
            BeanProvider::<T2>::get_bean(self),
            BeanProvider::<T3>::get_bean(self),
            BeanProvider::<T4>::get_bean(self),
            BeanProvider::<T5>::get_bean(self),
            BeanProvider::<T6>::get_bean(self),
            BeanProvider::<T7>::get_bean(self),
        )
    }
}

impl<
    U: BeanProvider<T1> + BeanProvider<T2> + BeanProvider<T3> + BeanProvider<T4> +
        BeanProvider<T5> + BeanProvider<T6> + BeanProvider<T7> + BeanProvider<T8>,
    T1, T2, T3, T4, T5, T6, T7, T8,
> BeanProvider<(
    T1, T2, T3, T4, T5, T6, T7, T8,
)> for U {
    open spec fn provides(
        &self,
        bean: (
            T1, T2, T3, T4, T5, T6, T7, T8,
        ),
    ) -> bool {
        &&& BeanProvider::<T1>::provides(self, bean.0)
        &&& BeanProvider::<T2>::provides(self, bean.1)
        &&& BeanProvider::<T3>::provides(self, bean.2)
        &&& BeanProvider::<T4>::provides(self, bean.3)
        &&& BeanProvider::<T5>::provides(self, bean.4)
        &&& BeanProvider::<T6>::provides(self, bean.5)
        &&& BeanProvider::<T7>::provides(self, bean.6)
        &&& BeanProvider::<T8>::provides(self, bean.7)
    }

    fn get_bean(&self) -> (bean: (
        T1, T2, T3, T4, T5, T6, T7, T8,
    )) {
        (
            BeanProvider::<T1>::get_bean(self),
            BeanProvider::<T2>::get_bean(self),
            BeanProvider::<T3>::get_bean(self),
            BeanProvider::<T4>::get_bean(self),
            BeanProvider::<T5>::get_bean(self),
            BeanProvider::<T6>::get_bean(self),
            BeanProvider::<T7>::get_bean(self),
            BeanProvider::<T8>::get_bean(self),
        )
    }
}

impl<
    U: BeanProvider<T1> + BeanProvider<T2> + BeanProvider<T3> + BeanProvider<T4> +
        BeanProvider<T5> + BeanProvider<T6> + BeanProvider<T7> + BeanProvider<T8> +
        BeanProvider<T9>,
    T1, T2, T3, T4, T5, T6, T7, T8, T9,
> BeanProvider<(
    T1, T2, T3, T4, T5, T6, T7, T8, T9,
)> for U {
    open spec fn provides(
        &self,
        bean: (
            T1, T2, T3, T4, T5, T6, T7, T8, T9,
        ),
    ) -> bool {
        &&& BeanProvider::<T1>::provides(self, bean.0)
        &&& BeanProvider::<T2>::provides(self, bean.1)
        &&& BeanProvider::<T3>::provides(self, bean.2)
        &&& BeanProvider::<T4>::provides(self, bean.3)
        &&& BeanProvider::<T5>::provides(self, bean.4)
        &&& BeanProvider::<T6>::provides(self, bean.5)
        &&& BeanProvider::<T7>::provides(self, bean.6)
        &&& BeanProvider::<T8>::provides(self, bean.7)
        &&& BeanProvider::<T9>::provides(self, bean.8)
    }

    fn get_bean(&self) -> (bean: (
        T1, T2, T3, T4, T5, T6, T7, T8, T9,
    )) {
        (
            BeanProvider::<T1>::get_bean(self),
            BeanProvider::<T2>::get_bean(self),
            BeanProvider::<T3>::get_bean(self),
            BeanProvider::<T4>::get_bean(self),
            BeanProvider::<T5>::get_bean(self),
            BeanProvider::<T6>::get_bean(self),
            BeanProvider::<T7>::get_bean(self),
            BeanProvider::<T8>::get_bean(self),
            BeanProvider::<T9>::get_bean(self),
        )
    }
}

impl<
    U: BeanProvider<T1> + BeanProvider<T2> + BeanProvider<T3> + BeanProvider<T4> +
        BeanProvider<T5> + BeanProvider<T6> + BeanProvider<T7> + BeanProvider<T8> +
        BeanProvider<T9> + BeanProvider<T10>,
    T1, T2, T3, T4, T5, T6, T7, T8, T9, T10,
> BeanProvider<(
    T1, T2, T3, T4, T5, T6, T7, T8, T9, T10,
)> for U {
    open spec fn provides(
        &self,
        bean: (
            T1, T2, T3, T4, T5, T6, T7, T8, T9, T10,
        ),
    ) -> bool {
        &&& BeanProvider::<T1>::provides(self, bean.0)
        &&& BeanProvider::<T2>::provides(self, bean.1)
        &&& BeanProvider::<T3>::provides(self, bean.2)
        &&& BeanProvider::<T4>::provides(self, bean.3)
        &&& BeanProvider::<T5>::provides(self, bean.4)
        &&& BeanProvider::<T6>::provides(self, bean.5)
        &&& BeanProvider::<T7>::provides(self, bean.6)
        &&& BeanProvider::<T8>::provides(self, bean.7)
        &&& BeanProvider::<T9>::provides(self, bean.8)
        &&& BeanProvider::<T10>::provides(self, bean.9)
    }

    fn get_bean(&self) -> (bean: (
        T1, T2, T3, T4, T5, T6, T7, T8, T9, T10,
    )) {
        (
            BeanProvider::<T1>::get_bean(self),
            BeanProvider::<T2>::get_bean(self),
            BeanProvider::<T3>::get_bean(self),
            BeanProvider::<T4>::get_bean(self),
            BeanProvider::<T5>::get_bean(self),
            BeanProvider::<T6>::get_bean(self),
            BeanProvider::<T7>::get_bean(self),
            BeanProvider::<T8>::get_bean(self),
            BeanProvider::<T9>::get_bean(self),
            BeanProvider::<T10>::get_bean(self),
        )
    }
}

impl<
    U: BeanProvider<T1> + BeanProvider<T2> + BeanProvider<T3> + BeanProvider<T4> +
        BeanProvider<T5> + BeanProvider<T6> + BeanProvider<T7> + BeanProvider<T8> +
        BeanProvider<T9> + BeanProvider<T10> + BeanProvider<T11>,
    T1, T2, T3, T4, T5, T6, T7, T8, T9, T10, T11,
> BeanProvider<(
    T1, T2, T3, T4, T5, T6, T7, T8, T9, T10, T11,
)> for U {
    open spec fn provides(
        &self,
        bean: (
            T1, T2, T3, T4, T5, T6, T7, T8, T9, T10, T11,
        ),
    ) -> bool {
        &&& BeanProvider::<T1>::provides(self, bean.0)
        &&& BeanProvider::<T2>::provides(self, bean.1)
        &&& BeanProvider::<T3>::provides(self, bean.2)
        &&& BeanProvider::<T4>::provides(self, bean.3)
        &&& BeanProvider::<T5>::provides(self, bean.4)
        &&& BeanProvider::<T6>::provides(self, bean.5)
        &&& BeanProvider::<T7>::provides(self, bean.6)
        &&& BeanProvider::<T8>::provides(self, bean.7)
        &&& BeanProvider::<T9>::provides(self, bean.8)
        &&& BeanProvider::<T10>::provides(self, bean.9)
        &&& BeanProvider::<T11>::provides(self, bean.10)
    }

    fn get_bean(&self) -> (bean: (
        T1, T2, T3, T4, T5, T6, T7, T8, T9, T10, T11,
    )) {
        (
            BeanProvider::<T1>::get_bean(self),
            BeanProvider::<T2>::get_bean(self),
            BeanProvider::<T3>::get_bean(self),
            BeanProvider::<T4>::get_bean(self),
            BeanProvider::<T5>::get_bean(self),
            BeanProvider::<T6>::get_bean(self),
            BeanProvider::<T7>::get_bean(self),
            BeanProvider::<T8>::get_bean(self),
            BeanProvider::<T9>::get_bean(self),
            BeanProvider::<T10>::get_bean(self),
            BeanProvider::<T11>::get_bean(self),
        )
    }
}

impl<
    U: BeanProvider<T1> + BeanProvider<T2> + BeanProvider<T3> + BeanProvider<T4> +
        BeanProvider<T5> + BeanProvider<T6> + BeanProvider<T7> + BeanProvider<T8> +
        BeanProvider<T9> + BeanProvider<T10> + BeanProvider<T11> + BeanProvider<T12>,
    T1, T2, T3, T4, T5, T6, T7, T8, T9, T10, T11, T12,
> BeanProvider<(
    T1, T2, T3, T4, T5, T6, T7, T8, T9, T10, T11, T12,
)> for U {
    open spec fn provides(
        &self,
        bean: (
            T1, T2, T3, T4, T5, T6, T7, T8, T9, T10, T11, T12,
        ),
    ) -> bool {
        &&& BeanProvider::<T1>::provides(self, bean.0)
        &&& BeanProvider::<T2>::provides(self, bean.1)
        &&& BeanProvider::<T3>::provides(self, bean.2)
        &&& BeanProvider::<T4>::provides(self, bean.3)
        &&& BeanProvider::<T5>::provides(self, bean.4)
        &&& BeanProvider::<T6>::provides(self, bean.5)
        &&& BeanProvider::<T7>::provides(self, bean.6)
        &&& BeanProvider::<T8>::provides(self, bean.7)
        &&& BeanProvider::<T9>::provides(self, bean.8)
        &&& BeanProvider::<T10>::provides(self, bean.9)
        &&& BeanProvider::<T11>::provides(self, bean.10)
        &&& BeanProvider::<T12>::provides(self, bean.11)
    }

    fn get_bean(&self) -> (bean: (
        T1, T2, T3, T4, T5, T6, T7, T8, T9, T10, T11, T12,
    )) {
        (
            BeanProvider::<T1>::get_bean(self),
            BeanProvider::<T2>::get_bean(self),
            BeanProvider::<T3>::get_bean(self),
            BeanProvider::<T4>::get_bean(self),
            BeanProvider::<T5>::get_bean(self),
            BeanProvider::<T6>::get_bean(self),
            BeanProvider::<T7>::get_bean(self),
            BeanProvider::<T8>::get_bean(self),
            BeanProvider::<T9>::get_bean(self),
            BeanProvider::<T10>::get_bean(self),
            BeanProvider::<T11>::get_bean(self),
            BeanProvider::<T12>::get_bean(self),
        )
    }
}

impl<
    U: BeanProvider<T1> + BeanProvider<T2> + BeanProvider<T3> + BeanProvider<T4> +
        BeanProvider<T5> + BeanProvider<T6> + BeanProvider<T7> + BeanProvider<T8> +
        BeanProvider<T9> + BeanProvider<T10> + BeanProvider<T11> + BeanProvider<T12> +
        BeanProvider<T13>,
    T1, T2, T3, T4, T5, T6, T7, T8, T9, T10, T11, T12, T13,
> BeanProvider<(
    T1, T2, T3, T4, T5, T6, T7, T8, T9, T10, T11, T12, T13,
)> for U {
    open spec fn provides(
        &self,
        bean: (
            T1, T2, T3, T4, T5, T6, T7, T8, T9, T10, T11, T12, T13,
        ),
    ) -> bool {
        &&& BeanProvider::<T1>::provides(self, bean.0)
        &&& BeanProvider::<T2>::provides(self, bean.1)
        &&& BeanProvider::<T3>::provides(self, bean.2)
        &&& BeanProvider::<T4>::provides(self, bean.3)
        &&& BeanProvider::<T5>::provides(self, bean.4)
        &&& BeanProvider::<T6>::provides(self, bean.5)
        &&& BeanProvider::<T7>::provides(self, bean.6)
        &&& BeanProvider::<T8>::provides(self, bean.7)
        &&& BeanProvider::<T9>::provides(self, bean.8)
        &&& BeanProvider::<T10>::provides(self, bean.9)
        &&& BeanProvider::<T11>::provides(self, bean.10)
        &&& BeanProvider::<T12>::provides(self, bean.11)
        &&& BeanProvider::<T13>::provides(self, bean.12)
    }

    fn get_bean(&self) -> (bean: (
        T1, T2, T3, T4, T5, T6, T7, T8, T9, T10, T11, T12, T13,
    )) {
        (
            BeanProvider::<T1>::get_bean(self),
            BeanProvider::<T2>::get_bean(self),
            BeanProvider::<T3>::get_bean(self),
            BeanProvider::<T4>::get_bean(self),
            BeanProvider::<T5>::get_bean(self),
            BeanProvider::<T6>::get_bean(self),
            BeanProvider::<T7>::get_bean(self),
            BeanProvider::<T8>::get_bean(self),
            BeanProvider::<T9>::get_bean(self),
            BeanProvider::<T10>::get_bean(self),
            BeanProvider::<T11>::get_bean(self),
            BeanProvider::<T12>::get_bean(self),
            BeanProvider::<T13>::get_bean(self),
        )
    }
}

impl<
    U: BeanProvider<T1> + BeanProvider<T2> + BeanProvider<T3> + BeanProvider<T4> +
        BeanProvider<T5> + BeanProvider<T6> + BeanProvider<T7> + BeanProvider<T8> +
        BeanProvider<T9> + BeanProvider<T10> + BeanProvider<T11> + BeanProvider<T12> +
        BeanProvider<T13> + BeanProvider<T14>,
    T1, T2, T3, T4, T5, T6, T7, T8, T9, T10, T11, T12, T13, T14,
> BeanProvider<(
    T1, T2, T3, T4, T5, T6, T7, T8, T9, T10, T11, T12, T13, T14,
)> for U {
    open spec fn provides(
        &self,
        bean: (
            T1, T2, T3, T4, T5, T6, T7, T8, T9, T10, T11, T12, T13, T14,
        ),
    ) -> bool {
        &&& BeanProvider::<T1>::provides(self, bean.0)
        &&& BeanProvider::<T2>::provides(self, bean.1)
        &&& BeanProvider::<T3>::provides(self, bean.2)
        &&& BeanProvider::<T4>::provides(self, bean.3)
        &&& BeanProvider::<T5>::provides(self, bean.4)
        &&& BeanProvider::<T6>::provides(self, bean.5)
        &&& BeanProvider::<T7>::provides(self, bean.6)
        &&& BeanProvider::<T8>::provides(self, bean.7)
        &&& BeanProvider::<T9>::provides(self, bean.8)
        &&& BeanProvider::<T10>::provides(self, bean.9)
        &&& BeanProvider::<T11>::provides(self, bean.10)
        &&& BeanProvider::<T12>::provides(self, bean.11)
        &&& BeanProvider::<T13>::provides(self, bean.12)
        &&& BeanProvider::<T14>::provides(self, bean.13)
    }

    fn get_bean(&self) -> (bean: (
        T1, T2, T3, T4, T5, T6, T7, T8, T9, T10, T11, T12, T13, T14,
    )) {
        (
            BeanProvider::<T1>::get_bean(self),
            BeanProvider::<T2>::get_bean(self),
            BeanProvider::<T3>::get_bean(self),
            BeanProvider::<T4>::get_bean(self),
            BeanProvider::<T5>::get_bean(self),
            BeanProvider::<T6>::get_bean(self),
            BeanProvider::<T7>::get_bean(self),
            BeanProvider::<T8>::get_bean(self),
            BeanProvider::<T9>::get_bean(self),
            BeanProvider::<T10>::get_bean(self),
            BeanProvider::<T11>::get_bean(self),
            BeanProvider::<T12>::get_bean(self),
            BeanProvider::<T13>::get_bean(self),
            BeanProvider::<T14>::get_bean(self),
        )
    }
}

impl<
    U: BeanProvider<T1> + BeanProvider<T2> + BeanProvider<T3> + BeanProvider<T4> +
        BeanProvider<T5> + BeanProvider<T6> + BeanProvider<T7> + BeanProvider<T8> +
        BeanProvider<T9> + BeanProvider<T10> + BeanProvider<T11> + BeanProvider<T12> +
        BeanProvider<T13> + BeanProvider<T14> + BeanProvider<T15>,
    T1, T2, T3, T4, T5, T6, T7, T8, T9, T10, T11, T12, T13, T14, T15,
> BeanProvider<(
    T1, T2, T3, T4, T5, T6, T7, T8, T9, T10, T11, T12, T13, T14, T15,
)> for U {
    open spec fn provides(
        &self,
        bean: (
            T1, T2, T3, T4, T5, T6, T7, T8, T9, T10, T11, T12, T13, T14, T15,
        ),
    ) -> bool {
        &&& BeanProvider::<T1>::provides(self, bean.0)
        &&& BeanProvider::<T2>::provides(self, bean.1)
        &&& BeanProvider::<T3>::provides(self, bean.2)
        &&& BeanProvider::<T4>::provides(self, bean.3)
        &&& BeanProvider::<T5>::provides(self, bean.4)
        &&& BeanProvider::<T6>::provides(self, bean.5)
        &&& BeanProvider::<T7>::provides(self, bean.6)
        &&& BeanProvider::<T8>::provides(self, bean.7)
        &&& BeanProvider::<T9>::provides(self, bean.8)
        &&& BeanProvider::<T10>::provides(self, bean.9)
        &&& BeanProvider::<T11>::provides(self, bean.10)
        &&& BeanProvider::<T12>::provides(self, bean.11)
        &&& BeanProvider::<T13>::provides(self, bean.12)
        &&& BeanProvider::<T14>::provides(self, bean.13)
        &&& BeanProvider::<T15>::provides(self, bean.14)
    }

    fn get_bean(&self) -> (bean: (
        T1, T2, T3, T4, T5, T6, T7, T8, T9, T10, T11, T12, T13, T14, T15,
    )) {
        (
            BeanProvider::<T1>::get_bean(self),
            BeanProvider::<T2>::get_bean(self),
            BeanProvider::<T3>::get_bean(self),
            BeanProvider::<T4>::get_bean(self),
            BeanProvider::<T5>::get_bean(self),
            BeanProvider::<T6>::get_bean(self),
            BeanProvider::<T7>::get_bean(self),
            BeanProvider::<T8>::get_bean(self),
            BeanProvider::<T9>::get_bean(self),
            BeanProvider::<T10>::get_bean(self),
            BeanProvider::<T11>::get_bean(self),
            BeanProvider::<T12>::get_bean(self),
            BeanProvider::<T13>::get_bean(self),
            BeanProvider::<T14>::get_bean(self),
            BeanProvider::<T15>::get_bean(self),
        )
    }
}

impl<
    U: BeanProvider<T1> + BeanProvider<T2> + BeanProvider<T3> + BeanProvider<T4> +
        BeanProvider<T5> + BeanProvider<T6> + BeanProvider<T7> + BeanProvider<T8> +
        BeanProvider<T9> + BeanProvider<T10> + BeanProvider<T11> + BeanProvider<T12> +
        BeanProvider<T13> + BeanProvider<T14> + BeanProvider<T15> + BeanProvider<T16>,
    T1, T2, T3, T4, T5, T6, T7, T8, T9, T10, T11, T12, T13, T14, T15, T16,
> BeanProvider<(
    T1, T2, T3, T4, T5, T6, T7, T8, T9, T10, T11, T12, T13, T14, T15, T16,
)> for U {
    open spec fn provides(
        &self,
        bean: (
            T1, T2, T3, T4, T5, T6, T7, T8, T9, T10, T11, T12, T13, T14, T15, T16,
        ),
    ) -> bool {
        &&& BeanProvider::<T1>::provides(self, bean.0)
        &&& BeanProvider::<T2>::provides(self, bean.1)
        &&& BeanProvider::<T3>::provides(self, bean.2)
        &&& BeanProvider::<T4>::provides(self, bean.3)
        &&& BeanProvider::<T5>::provides(self, bean.4)
        &&& BeanProvider::<T6>::provides(self, bean.5)
        &&& BeanProvider::<T7>::provides(self, bean.6)
        &&& BeanProvider::<T8>::provides(self, bean.7)
        &&& BeanProvider::<T9>::provides(self, bean.8)
        &&& BeanProvider::<T10>::provides(self, bean.9)
        &&& BeanProvider::<T11>::provides(self, bean.10)
        &&& BeanProvider::<T12>::provides(self, bean.11)
        &&& BeanProvider::<T13>::provides(self, bean.12)
        &&& BeanProvider::<T14>::provides(self, bean.13)
        &&& BeanProvider::<T15>::provides(self, bean.14)
        &&& BeanProvider::<T16>::provides(self, bean.15)
    }

    fn get_bean(&self) -> (bean: (
        T1, T2, T3, T4, T5, T6, T7, T8, T9, T10, T11, T12, T13, T14, T15, T16,
    )) {
        (
            BeanProvider::<T1>::get_bean(self),
            BeanProvider::<T2>::get_bean(self),
            BeanProvider::<T3>::get_bean(self),
            BeanProvider::<T4>::get_bean(self),
            BeanProvider::<T5>::get_bean(self),
            BeanProvider::<T6>::get_bean(self),
            BeanProvider::<T7>::get_bean(self),
            BeanProvider::<T8>::get_bean(self),
            BeanProvider::<T9>::get_bean(self),
            BeanProvider::<T10>::get_bean(self),
            BeanProvider::<T11>::get_bean(self),
            BeanProvider::<T12>::get_bean(self),
            BeanProvider::<T13>::get_bean(self),
            BeanProvider::<T14>::get_bean(self),
            BeanProvider::<T15>::get_bean(self),
            BeanProvider::<T16>::get_bean(self),
        )
    }
}

/// A type that takes what it needs from a bean provider.
pub trait Inject<U>: Sized {
    /// Injecting the beans `beans` may turn `before` into `after`. A type that
    /// does not say more may be turned into anything.
    open spec fn injected(before: Self, after: Self, beans: U) -> bool {
        true
    }

    /// Takes the beans that the object needs from the provider.
    fn inject<P: BeanProvider<U>>(&mut self, bean_provider: &P)
        ensures
            exists|beans: U| #[trigger]
                bean_provider.provides(beans) && Self::injected(*old(self), *final(self), beans),
    ;
}

/// Provides extension methods for [`BeanProvider`].
pub trait BeanProviderExt<T>: BeanProvider<T> + Sized {
    /// Injects into a mutable bean.
    fn inject_into<I: Inject<T>>(&self, b: &mut I) -> (this: &Self)
        ensures
            this == self,
            exists|beans: T| #[trigger]
                self.provides(beans) && I::injected(*old(b), *final(b), beans),
    {
        b.inject(self);
        self
    }
}

impl<T: BeanProvider<U>, U> BeanProviderExt<U> for T {
}

/// Runs injection code with the given bean provider, returning the self
/// object.
pub trait WithInject<U>: Inject<U> {
    /// Injects an existing object with data.
    fn with_inject<P: BeanProvider<U>>(self, f: &P) -> (injected: Self)
        ensures
            exists|beans: U| #[trigger] f.provides(beans) && Self::injected(self, injected, beans),
    ;
}

impl<T: Inject<U>, U> WithInject<U> for T {
    fn with_inject<P: BeanProvider<U>>(self, f: &P) -> (injected: Self) {
        let mut this = self;
        this.inject(f);
        this
    }
}

/// An object that must be created from a bean provider.
pub trait FromBeanProvider<U>: Sized {
    /// `built` is an object that may be created from the beans `beans`. A
    /// type that does not say more may be created as anything.
    open spec fn built_from(built: Self, beans: U) -> bool {
        true
    }

    /// Creates the object from the beans of the provider.
    fn from_bean_provider<P: BeanProvider<U>>(f: &P) -> (built: Self)
        ensures
            exists|beans: U| #[trigger] f.provides(beans) && Self::built_from(built, beans),
    ;
}

impl<T: Default + Inject<U>, U> FromBeanProvider<U> for T {
    /// The default value, injected with the beans.
    open spec fn built_from(built: Self, beans: U) -> bool {
        exists|fresh: T| #[trigger]
            call_ensures(T::default, (), fresh) && T::injected(fresh, built, beans)
    }

    fn from_bean_provider<P: BeanProvider<U>>(f: &P) -> (built: Self) {
        T::default().with_inject(f)
    }
}

/// Creates a named object with a given bean provider.
pub trait NamedFromBeanProvider<U>: Sized {
    /// `built` is an object that may be created under the name from the beans
    /// `beans`. A type that does not say more may be created as anything.
    open spec fn named_built_from(built: Self, name: Seq<char>, beans: U) -> bool {
        true
    }

    /// Creates the object under the name from the beans of the provider.
    fn named_from_bean_provider<P: BeanProvider<U>>(name: &str, p: &P) -> (built: Self)
        ensures
            exists|beans: U| #[trigger]
                p.provides(beans) && Self::named_built_from(built, name@, beans),
    ;
}

impl<T: CreateNamed + Inject<U>, U> NamedFromBeanProvider<U> for T {
    /// An object made with the name, injected with the beans.
    open spec fn named_built_from(built: Self, name: Seq<char>, beans: U) -> bool {
        exists|fresh: T| #[trigger] T::injected(fresh, built, beans) && fresh.name_of() == name
    }

    fn named_from_bean_provider<P: BeanProvider<U>>(name: &str, p: &P) -> (built: Self) {
        T::with_name(name).with_inject(p)
    }
}

/// A type that needs no beans.
pub trait NoBeans {
}

impl<T: NoBeans> Inject<()> for T {
    /// Nothing is injected: the object stays as it is.
    open spec fn injected(before: Self, after: Self, beans: ()) -> bool {
        before == after
    }

    fn inject<P: BeanProvider<()>>(&mut self, _bean_provider: &P) {
        assert(_bean_provider.provides(()));
    }
}

impl NoBeans for () {
}

} // verus!
