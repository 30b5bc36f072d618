use super::Usage;
use vstd::prelude::*;

verus! {

/// Utility trait for constructing a `Usage<Self, T>`; every type has it, so
/// any type can serve as a marker.
pub trait AsUsage: Sized {
    fn as_usage<T>(data: T) -> (r: Usage<Self, T>)
        ensures
            r == Usage::<Self, T>::wrap(data),
            r@ == data,
    {
        Usage { data, _phantom: core::marker::PhantomData }
    }
}

impl<X> AsUsage for X {}

} // verus!
