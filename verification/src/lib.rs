//! A wrapper for sensitive values that keeps them out of text output.
//!
//! [`Redacted<T, R>`] carries a value of type `T` together with a
//! type-level redaction strategy `R`. Whenever the wrapper is rendered as
//! text, the strategy's output is emitted instead of anything derived from
//! the value itself; every other value operation (equality, ordering,
//! cloning, default construction, access to the interior) is forwarded to
//! the wrapped value unchanged.
//!
//! A wrapper is only ever built by converting a bare value with
//! [`From`]/[`Into`]; there is no constructor that takes a strategy at
//! run time, because the strategy is fixed by the type.

use vstd::prelude::*;

pub mod redactors;
pub mod serde;
pub mod zeroize;

use crate::redactors::Simple;
use core::marker::PhantomData;
use vstd::std_specs::cmp::PartialEqSpec;
use vstd::std_specs::cmp::PartialOrdSpec;

verus! {

/// How a wrapped value is replaced by safe text.
///
/// A strategy is a stateless, compile-time-selected capability: it is never
/// instantiated, only named as a type parameter of [`Redacted`]. The general
/// form receives a reference to the wrapped value, so a strategy may derive
/// something from it (such as its size); a value-blind strategy simply
/// ignores the argument.
pub trait Redactor<T> {
    /// The exact text this strategy emits for the value `v`.
    spec fn spec_redact(v: T) -> Seq<char>;

    /// Produce the redacted representation of `v`.
    ///
    /// The output is fully determined by [`Redactor::spec_redact`]: no
    /// fragment of the value's own representation can appear beyond what
    /// that specification derives from the value.
    fn redact(v: &T) -> (s: String)
        ensures
            s@ == Self::spec_redact(*v),
    ;
}

/// A value of type `T` bound to the redaction strategy `R` for its lifetime.
///
/// The strategy defaults to [`Simple`], the fixed `<redacted>` placeholder.
/// The only stored state is the wrapped value; the strategy is a zero-size
/// type-level tag, so the wrapper's memory footprint equals that of `T`.
pub struct Redacted<T, R = Simple> where R: Redactor<T> {
    inner: T,
    _redactor: PhantomData<R>,
}

impl<T, R: Redactor<T>> Redacted<T, R> {
    /// The wrapped value, as seen by specifications.
    pub closed spec fn spec_inner(&self) -> T {
        self.inner
    }

    /// The wrapper holding `v`, as seen by specifications.
    pub closed spec fn spec_wrap(v: T) -> Self {
        Redacted { inner: v, _redactor: PhantomData }
    }

    /// Wrapping a value and looking inside gives that value back.
    pub broadcast proof fn lemma_wrap_inner(v: T)
        ensures
            (#[trigger] Self::spec_wrap(v)).spec_inner() == v,
    {
    }

    /// A wrapper is nothing but its wrapped value: the strategy tag carries
    /// no state, so two wrappers of the same type with equal interiors are
    /// equal.
    pub broadcast proof fn lemma_inner_determines_wrapper(a: Self, b: Self)
        ensures
            (#[trigger] a.spec_inner()) == (#[trigger] b.spec_inner()) ==> a == b,
    {
        assert(a._redactor == b._redactor);
    }

    /// Consumes the wrapper, returning the wrapped value.
    pub fn into_inner(self) -> (v: T)
        ensures
            v == self.spec_inner(),
    {
        self.inner
    }

    /// A read-only reference to the wrapped value.
    ///
    /// This is the deliberate escape hatch: a caller that asks for the real
    /// value by name is trusted with it. Redaction guards only the textual
    /// and serialized representations.
    pub fn inner(&self) -> (v: &T)
        ensures
            *v == self.spec_inner(),
    {
        &self.inner
    }

    /// A mutable reference to the wrapped value.
    pub fn inner_mut(&mut self) -> (v: &mut T)
        ensures
            *v == old(self).spec_inner(),
            final(self).spec_inner() == *final(v),
    {
        &mut self.inner
    }

    /// The redacted textual representation of this wrapper.
    ///
    /// Both display-style and debug-style output use this one rendering
    /// path, so the two are identical by construction: either one could
    /// leak the secret if it were treated differently.
    pub fn render(&self) -> (s: String)
        ensures
            s@ == R::spec_redact(self.spec_inner()),
    {
        R::redact(&self.inner)
    }
}

/// Construction happens only here: a bare value converts into a wrapper.
/// The strategy is chosen by the target type, never passed at run time.
impl<T, R: Redactor<T>> From<T> for Redacted<T, R> {
    fn from(value: T) -> (r: Self) {
        Redacted { inner: value, _redactor: PhantomData }
    }
}

impl<T, R: Redactor<T>> vstd::std_specs::convert::FromSpecImpl<T> for Redacted<T, R> {
    open spec fn obeys_from_spec() -> bool {
        true
    }

    open spec fn from_spec(v: T) -> Self {
        Self::spec_wrap(v)
    }
}

/// A wrapper over a defaultable value defaults to wrapping that value's
/// default; the strategy plays no part in the produced value.
impl<T: Default, R: Redactor<T>> Default for Redacted<T, R> {
    fn default() -> (r: Self)
        ensures
            call_ensures(T::default, (), r.spec_inner()),
    {
        Redacted { inner: T::default(), _redactor: PhantomData }
    }
}

/// Cloning clones exactly the wrapped value; the strategy tag is zero-size
/// and needs no cloning.
impl<T: Clone, R: Redactor<T>> Clone for Redacted<T, R> {
    fn clone(&self) -> (r: Self)
        ensures
            cloned::<T>(self.spec_inner(), r.spec_inner()),
    {
        Redacted { inner: self.inner.clone(), _redactor: PhantomData }
    }
}

impl<T: Copy, R: Redactor<T>> Copy for Redacted<T, R> {

}

/// Equality is the wrapped values' equality, whatever strategy either side
/// carries: redaction never affects comparison semantics, and the strategy
/// is orthogonal to value identity.
impl<T: PartialEq, R1: Redactor<T>, R2: Redactor<T>> PartialEq<Redacted<T, R2>> for Redacted<T, R1> {
    fn eq(&self, other: &Redacted<T, R2>) -> (r: bool) {
        self.inner.eq(&other.inner)
    }
}

impl<T: PartialEq, R1: Redactor<T>, R2: Redactor<T>> vstd::std_specs::cmp::PartialEqSpecImpl<Redacted<T, R2>> for Redacted<T, R1> {
    open spec fn obeys_eq_spec() -> bool {
        T::obeys_eq_spec()
    }

    open spec fn eq_spec(&self, other: &Redacted<T, R2>) -> bool {
        self.spec_inner().eq_spec(&other.spec_inner())
    }
}

/// A wrapper also compares directly against a bare value of the wrapped
/// type, again by the wrapped values' own equality.
impl<T: PartialEq, R: Redactor<T>> PartialEq<T> for Redacted<T, R> {
    fn eq(&self, other: &T) -> (r: bool) {
        self.inner.eq(other)
    }
}

impl<T: PartialEq, R: Redactor<T>> vstd::std_specs::cmp::PartialEqSpecImpl<T> for Redacted<T, R> {
    open spec fn obeys_eq_spec() -> bool {
        T::obeys_eq_spec()
    }

    open spec fn eq_spec(&self, other: &T) -> bool {
        self.spec_inner().eq_spec(other)
    }
}

impl<T: Eq, R: Redactor<T>> Eq for Redacted<T, R> {

}

/// Ordering delegates to the wrapped values' ordering, across strategies.
impl<T: PartialOrd, R1: Redactor<T>, R2: Redactor<T>> PartialOrd<Redacted<T, R2>> for Redacted<T, R1> {
    fn partial_cmp(&self, other: &Redacted<T, R2>) -> (r: Option<core::cmp::Ordering>) {
        self.inner.partial_cmp(&other.inner)
    }
}

impl<T: PartialOrd, R1: Redactor<T>, R2: Redactor<T>> vstd::std_specs::cmp::PartialOrdSpecImpl<Redacted<T, R2>> for Redacted<T, R1> {
    open spec fn obeys_partial_cmp_spec() -> bool {
        T::obeys_partial_cmp_spec()
    }

    open spec fn partial_cmp_spec(&self, other: &Redacted<T, R2>) -> Option<core::cmp::Ordering> {
        self.spec_inner().partial_cmp_spec(&other.spec_inner())
    }
}

/// A wrapper also orders directly against a bare value of the wrapped type.
impl<T: PartialOrd, R: Redactor<T>> PartialOrd<T> for Redacted<T, R> {
    fn partial_cmp(&self, other: &T) -> (r: Option<core::cmp::Ordering>) {
        self.inner.partial_cmp(other)
    }
}

impl<T: PartialOrd, R: Redactor<T>> vstd::std_specs::cmp::PartialOrdSpecImpl<T> for Redacted<T, R> {
    open spec fn obeys_partial_cmp_spec() -> bool {
        T::obeys_partial_cmp_spec()
    }

    open spec fn partial_cmp_spec(&self, other: &T) -> Option<core::cmp::Ordering> {
        self.spec_inner().partial_cmp_spec(other)
    }
}

/// Equality delegation: two wrappers over the same value type are equal
/// exactly when the values they wrap are equal, no matter which strategy
/// parameterizes either side; and a wrapper equals a bare value exactly
/// when its wrapped value does. Redaction never affects comparison.
pub proof fn lemma_eq_delegates<T: PartialEq, R1: Redactor<T>, R2: Redactor<T>>(x: T, y: T)
    ensures
        <Redacted<T, R1> as PartialEqSpec<Redacted<T, R2>>>::obeys_eq_spec()
            == T::obeys_eq_spec(),
        <Redacted<T, R1> as PartialEqSpec<Redacted<T, R2>>>::eq_spec(
            &Redacted::<T, R1>::spec_wrap(x),
            &Redacted::<T, R2>::spec_wrap(y),
        ) == x.eq_spec(&y),
        <Redacted<T, R1> as PartialEqSpec<T>>::eq_spec(&Redacted::<T, R1>::spec_wrap(x), &y)
            == x.eq_spec(&y),
{
}

/// Ordering delegation: wrapper-to-wrapper and wrapper-to-bare-value
/// comparisons both answer exactly as the wrapped values' own ordering
/// does, independent of either side's strategy.
pub proof fn lemma_ord_delegates<T: PartialOrd, R1: Redactor<T>, R2: Redactor<T>>(x: T, y: T)
    ensures
        <Redacted<T, R1> as PartialOrdSpec<Redacted<T, R2>>>::obeys_partial_cmp_spec()
            == T::obeys_partial_cmp_spec(),
        <Redacted<T, R1> as PartialOrdSpec<Redacted<T, R2>>>::partial_cmp_spec(
            &Redacted::<T, R1>::spec_wrap(x),
            &Redacted::<T, R2>::spec_wrap(y),
        ) == x.partial_cmp_spec(&y),
        <Redacted<T, R1> as PartialOrdSpec<T>>::partial_cmp_spec(
            &Redacted::<T, R1>::spec_wrap(x),
            &y,
        ) == x.partial_cmp_spec(&y),
{
}

} // verus!
