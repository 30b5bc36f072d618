//! A generic wrapper that gives existing data a distinct type of its own while
//! keeping every operation of that data at hand.
//!
//! `Usage<U, T>` holds a payload of type `T` and a zero-sized marker `U`. Two
//! wrappers over the same payload type but with different markers are different
//! types; a wrapper behaves like its payload through `Deref`, `Borrow`, and the
//! comparison, hashing, cloning, default and collection traits, each of which
//! is forwarded to the payload.
//!
//! The model of a wrapper is its payload (`w@`): the marker carries nothing, so
//! two wrappers of one type are the same value exactly when their payloads are.

mod as_usage;

pub use as_usage::AsUsage;

use vstd::prelude::*;
use vstd::std_specs::cmp::{OrdSpec, PartialEqSpec, PartialOrdSpec};

verus! {

/// Wrapper type for creating a transparent-yet-distinct type over some underlying data.
///
/// `U` only tags the type; `T` is the data. Every capability forwarded to the
/// payload asks the payload alone for it, never the marker.
pub struct Usage<U, T> {
    pub data: T,
    /// The marker: zero-sized, it only carries the type `U`.
    pub _phantom: core::marker::PhantomData<U>,
}

impl<U, T> View for Usage<U, T> {
    type V = T;

    open spec fn view(&self) -> T {
        self.data
    }
}

impl<U, T> Usage<U, T> {
    /// The wrapper that holds `data`.
    pub open spec fn wrap(data: T) -> Self {
        Usage { data, _phantom: core::marker::PhantomData }
    }

    /// Convert `Usage<U, T>` into `T` by value.
    pub fn into_inner(self) -> (r: T)
        ensures
            r == self@,
    {
        self.data
    }
}

/// Wrapping a payload and unwrapping it again gives back that payload; and a
/// wrapper is fully determined by its payload, so unwrapping a wrapper and
/// wrapping the result again gives back the same wrapper.
pub proof fn lemma_round_trip<U, T>(v: T, w: Usage<U, T>)
    ensures
        Usage::<U, T>::wrap(v)@ == v,
        Usage::<U, T>::wrap(w@) == w,
{
}

/// A wrapper is the same value as another of its type exactly when their
/// payloads are the same.
pub proof fn lemma_view_determines<U, T>(a: Usage<U, T>, b: Usage<U, T>)
    ensures
        a == b <==> a@ == b@,
{
}

/// Equality of wrappers is the payload's equality, whatever the marker: two
/// wrappers are equal exactly when their payloads are, under one marker as
/// under another, and the wrapper keeps the payload's laws of equality exactly
/// when the payload has them.
pub proof fn lemma_eq_by_payload<A, B, T: PartialEq>(a: T, b: T)
    ensures
        Usage::<A, T>::wrap(a).eq_spec(&Usage::<A, T>::wrap(b)) == a.eq_spec(&b),
        Usage::<B, T>::wrap(a).eq_spec(&Usage::<B, T>::wrap(b)) == a.eq_spec(&b),
        <Usage<A, T> as PartialEqSpec>::obeys_eq_spec() == <T as PartialEqSpec>::obeys_eq_spec(),
        <Usage<B, T> as PartialEqSpec>::obeys_eq_spec() == <T as PartialEqSpec>::obeys_eq_spec(),
{
}

/// Where the payload's equality is reflexive, symmetric or transitive, so is
/// the wrapper's.
pub proof fn lemma_eq_laws<U, T: PartialEq>()
    requires
        <T as PartialEqSpec>::obeys_eq_spec(),
    ensures
        <Usage<U, T> as PartialEqSpec>::obeys_eq_spec(),
        (forall|a: T| #[trigger] a.eq_spec(&a)) ==> (forall|x: Usage<U, T>|
            #[trigger] x.eq_spec(&x)),
        (forall|a: T, b: T| #[trigger] a.eq_spec(&b) ==> b.eq_spec(&a)) ==> (forall|
            x: Usage<U, T>,
            y: Usage<U, T>,
        | #[trigger] x.eq_spec(&y) ==> y.eq_spec(&x)),
        (forall|a: T, b: T, c: T| #[trigger] a.eq_spec(&b) && #[trigger] b.eq_spec(&c) ==> a.eq_spec(
            &c,
        )) ==> (forall|x: Usage<U, T>, y: Usage<U, T>, z: Usage<U, T>| #[trigger] x.eq_spec(&y)
            && #[trigger] y.eq_spec(&z) ==> x.eq_spec(&z)),
{
}

// Formatting
#[verifier::external_type_specification]
#[verifier::external_body]
pub struct ExFormatter<'a>(core::fmt::Formatter<'a>);

#[verifier::external_type_specification]
#[verifier::external_body]
pub struct ExFmtError(core::fmt::Error);

impl<U, T: core::fmt::Debug> core::fmt::Debug for Usage<U, T> {
    /// Relies on `write!` with the payload's own `Debug` and that of the
    /// `PhantomData` marker, which names the marker type.
    #[verifier::external_body]
    fn fmt(&self, f: &mut core::fmt::Formatter<'_>) -> core::fmt::Result {
        write!(f, "Usage {{ data: {:?}, _phantom: {:?} }}", self.data, self._phantom)
    }
}

// Comparison and hashing, all by the payload alone
impl<U, T: PartialEq> PartialEq for Usage<U, T> {
    fn eq(&self, other: &Self) -> (r: bool) {
        self.data == other.data
    }
}

impl<U, T: PartialEq> vstd::std_specs::cmp::PartialEqSpecImpl for Usage<U, T> {
    open spec fn obeys_eq_spec() -> bool {
        <T as PartialEqSpec>::obeys_eq_spec()
    }

    open spec fn eq_spec(&self, other: &Self) -> bool {
        self@.eq_spec(&other@)
    }
}

impl<U, T: Eq> Eq for Usage<U, T> {}

impl<U, T: PartialOrd> PartialOrd for Usage<U, T> {
    fn partial_cmp(&self, other: &Self) -> (r: Option<core::cmp::Ordering>) {
        self.data.partial_cmp(&other.data)
    }
}

impl<U, T: PartialOrd> vstd::std_specs::cmp::PartialOrdSpecImpl for Usage<U, T> {
    open spec fn obeys_partial_cmp_spec() -> bool {
        <T as PartialOrdSpec>::obeys_partial_cmp_spec()
    }

    open spec fn partial_cmp_spec(&self, other: &Self) -> Option<core::cmp::Ordering> {
        self@.partial_cmp_spec(&other@)
    }
}

/// Comparison of wrappers is the payload's comparison, whatever the marker:
/// wrappers over the same payloads compare alike under any two markers.
pub proof fn lemma_cmp_by_payload<A, B, T: PartialOrd>(a: T, b: T)
    ensures
        Usage::<A, T>::wrap(a).partial_cmp_spec(&Usage::<A, T>::wrap(b)) == a.partial_cmp_spec(&b),
        Usage::<B, T>::wrap(a).partial_cmp_spec(&Usage::<B, T>::wrap(b)) == a.partial_cmp_spec(&b),
        <Usage<A, T> as PartialOrdSpec>::obeys_partial_cmp_spec()
            == <T as PartialOrdSpec>::obeys_partial_cmp_spec(),
        <Usage<B, T> as PartialOrdSpec>::obeys_partial_cmp_spec()
            == <T as PartialOrdSpec>::obeys_partial_cmp_spec(),
{
}

impl<U, T: Ord> Ord for Usage<U, T> {
    /// Relies on `Ord::cmp` of the payload: wrappers are ordered as their
    /// payloads are.
    #[verifier::external_body]
    fn cmp(&self, other: &Self) -> (r: core::cmp::Ordering)
        ensures
            <T as OrdSpec>::obeys_cmp_spec() ==> r == self@.cmp_spec(&other@),
    {
        self.data.cmp(&other.data)
    }
}

impl<U, T: core::hash::Hash> core::hash::Hash for Usage<U, T> {
    /// Relies on `Hash::hash` of the payload: the hasher is fed exactly what
    /// the payload feeds it, so equal payloads hash alike.
    #[verifier::external_body]
    fn hash<H: core::hash::Hasher>(&self, state: &mut H) {
        self.data.hash(state)
    }
}

// Duplication and default construction
impl<U, T: Clone> Clone for Usage<U, T> {
    fn clone(&self) -> (r: Self)
        ensures
            cloned(self@, r@),
    {
        Usage { data: self.data.clone(), _phantom: core::marker::PhantomData }
    }
}

impl<U, T: Copy> Copy for Usage<U, T> {}

impl<U, T: Default> Default for Usage<U, T> {
    fn default() -> (r: Self)
        ensures
            call_ensures(T::default, (), r@),
    {
        Usage { data: T::default(), _phantom: core::marker::PhantomData }
    }
}

// Construction
impl<U, T> From<T> for Usage<U, T> {
    fn from(t: T) -> (r: Self)
        ensures
            r@ == t,
    {
        U::as_usage(t)
    }
}

impl<U, T> vstd::std_specs::convert::FromSpecImpl<T> for Usage<U, T> {
    open spec fn obeys_from_spec() -> bool {
        true
    }

    open spec fn from_spec(v: T) -> Self {
        Self::wrap(v)
    }
}

impl<U, T, V> FromIterator<V> for Usage<U, T> where T: FromIterator<V> {
    /// Relies on `FromIterator::from_iter` of the payload type: the payload is
    /// what collecting the items into `T` gives.
    #[verifier::external_body]
    fn from_iter<I: IntoIterator<Item = V>>(iter: I) -> Self {
        Usage { data: T::from_iter(iter), _phantom: core::marker::PhantomData }
    }
}

impl<U, T, V> rayon::iter::FromParallelIterator<V> for Usage<U, T> where
    T: rayon::iter::FromParallelIterator<V>,
    V: Send,
 {
    /// Relies on rayon's `FromParallelIterator::from_par_iter` of the payload
    /// type: the payload is what collecting the items into `T` gives.
    #[verifier::external_body]
    fn from_par_iter<I: rayon::iter::IntoParallelIterator<Item = V>>(par_iter: I) -> Self {
        Usage { data: T::from_par_iter(par_iter), _phantom: core::marker::PhantomData }
    }
}

impl<U, T, V> rayon::iter::ParallelExtend<V> for Usage<U, T> where
    T: rayon::iter::ParallelExtend<V>,
    V: Send,
 {
    /// Relies on rayon's `ParallelExtend::par_extend` of the payload type,
    /// which extends the payload in place.
    #[verifier::external_body]
    fn par_extend<I: rayon::iter::IntoParallelIterator<Item = V>>(&mut self, par_iter: I) {
        self.data.par_extend(par_iter)
    }
}

// Access to the payload
impl<U, T> core::borrow::Borrow<T> for Usage<U, T> {
    fn borrow(&self) -> &T {
        &self.data
    }
}

impl<U, T> core::borrow::BorrowMut<T> for Usage<U, T> {
    fn borrow_mut(&mut self) -> &mut T {
        &mut self.data
    }
}

impl<U, T> core::ops::Deref for Usage<U, T> {
    type Target = T;

    fn deref(&self) -> (r: &T)
        ensures
            *r == self@,
    {
        &self.data
    }
}

impl<U, T> core::ops::DerefMut for Usage<U, T> {
    fn deref_mut(&mut self) -> (r: &mut T)
        ensures
            *r == old(self)@,
            final(self)@ == *final(r),
    {
        &mut self.data
    }
}

} // verus!
