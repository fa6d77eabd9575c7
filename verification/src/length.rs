//! A one-dimensional length, tagged with its units.

use crate::numeric::{is_additive_identity, payload_is_zero, payload_zero};
use crate::scale_factor::ScaleFactor;
use num::{NumCast, Zero};
use core::cmp::Ordering;
use core::marker::PhantomData;
use core::ops::{Add, Div, Mul, Neg, Sub};
use vstd::prelude::*;
use vstd::std_specs::cmp::{PartialEqSpec, PartialOrdSpec};
use vstd::std_specs::ops::{AddSpec, DivSpec, MulSpec, NegSpec, SubSpec};

verus! {

/// A one-dimensional distance, with value represented by `T` and unit of measurement `Unit`.
///
/// `Unit` takes no part in the representation: the only datum is the payload, field `0`.
#[derive(Debug, Ord)]
pub struct Length<Unit, T>(pub T, pub PhantomData<Unit>);

impl<Unit, T> Length<Unit, T> {
    /// The length whose payload is `x`.
    pub open spec fn of(x: T) -> Self {
        Length(x, PhantomData)
    }

    /// Tags the value `x` with the unit. Any value will do: none is examined.
    pub fn new(x: T) -> (r: Length<Unit, T>)
        ensures
            r == Self::of(x),
    {
        Length(x, PhantomData)
    }
}

impl<Unit, T: Clone> Length<Unit, T> {
    /// A copy of the payload.
    pub fn get(&self) -> (r: T)
        ensures
            cloned::<T>(self.0, r),
    {
        self.0.clone()
    }
}

impl<Unit, T: Clone> Clone for Length<Unit, T> {
    fn clone(&self) -> (r: Length<Unit, T>)
        ensures
            cloned::<T>(self.0, r.0),
    {
        Length::new(self.get())
    }
}

impl<Unit, T: Copy> Copy for Length<Unit, T> {
}

// length + length
impl<U, T: Clone + Add<T, Output = T>> vstd::std_specs::ops::AddSpecImpl for Length<U, T> {
    open spec fn obeys_add_spec() -> bool {
        T::obeys_add_spec()
    }

    open spec fn add_req(self, other: Length<U, T>) -> bool {
        self.0.add_req(other.0)
    }

    open spec fn add_spec(self, other: Length<U, T>) -> Length<U, T> {
        Length::of(self.0.add_spec(other.0))
    }
}

impl<U, T: Clone + Add<T, Output = T>> Add for Length<U, T> {
    type Output = Length<U, T>;

    fn add(self, other: Length<U, T>) -> (r: Length<U, T>)
        ensures
            T::obeys_add_spec() ==> r == Length::<U, T>::of(self.0.add_spec(other.0)),
    {
        Length::new(self.0.add(other.0))
    }
}

// length - length
impl<U, T: Clone + Sub<T, Output = T>> vstd::std_specs::ops::SubSpecImpl<Length<U, T>> for Length<U, T> {
    open spec fn obeys_sub_spec() -> bool {
        T::obeys_sub_spec()
    }

    open spec fn sub_req(self, other: Length<U, T>) -> bool {
        self.0.sub_req(other.0)
    }

    open spec fn sub_spec(self, other: Length<U, T>) -> Length<U, T> {
        Length::of(self.0.sub_spec(other.0))
    }
}

impl<U, T: Clone + Sub<T, Output = T>> Sub<Length<U, T>> for Length<U, T> {
    type Output = Length<U, T>;

    fn sub(self, other: Length<U, T>) -> (r: Length<U, T>)
        ensures
            T::obeys_sub_spec() ==> r == Length::<U, T>::of(self.0.sub_spec(other.0)),
    {
        Length::new(self.0.sub(other.0))
    }
}

// length * scaleFactor
impl<Src, Dst, T: Clone + Mul<T, Output = T>> vstd::std_specs::ops::MulSpecImpl<ScaleFactor<Src, Dst, T>> for Length<Src, T> {
    open spec fn obeys_mul_spec() -> bool {
        T::obeys_mul_spec()
    }

    open spec fn mul_req(self, scale: ScaleFactor<Src, Dst, T>) -> bool {
        self.0.mul_req(scale.0)
    }

    open spec fn mul_spec(self, scale: ScaleFactor<Src, Dst, T>) -> Length<Dst, T> {
        Length::of(self.0.mul_spec(scale.0))
    }
}

impl<Src, Dst, T: Clone + Mul<T, Output = T>> Mul<ScaleFactor<Src, Dst, T>> for Length<Src, T> {
    type Output = Length<Dst, T>;

    #[inline]
    fn mul(self, scale: ScaleFactor<Src, Dst, T>) -> (r: Length<Dst, T>)
        ensures
            T::obeys_mul_spec() ==> r == Length::<Dst, T>::of(self.0.mul_spec(scale.0)),
    {
        Length::new(self.0.mul(scale.0))
    }
}

// length / scaleFactor
impl<Src, Dst, T: Clone + Div<T, Output = T>> vstd::std_specs::ops::DivSpecImpl<ScaleFactor<Src, Dst, T>> for Length<Dst, T> {
    open spec fn obeys_div_spec() -> bool {
        T::obeys_div_spec()
    }

    open spec fn div_req(self, scale: ScaleFactor<Src, Dst, T>) -> bool {
        self.0.div_req(scale.0)
    }

    open spec fn div_spec(self, scale: ScaleFactor<Src, Dst, T>) -> Length<Src, T> {
        Length::of(self.0.div_spec(scale.0))
    }
}

impl<Src, Dst, T: Clone + Div<T, Output = T>> Div<ScaleFactor<Src, Dst, T>> for Length<Dst, T> {
    type Output = Length<Src, T>;

    #[inline]
    fn div(self, scale: ScaleFactor<Src, Dst, T>) -> (r: Length<Src, T>)
        ensures
            T::obeys_div_spec() ==> r == Length::<Src, T>::of(self.0.div_spec(scale.0)),
    {
        Length::new(self.0.div(scale.0))
    }
}

// -length
impl<U, T: Clone + Neg<Output = T>> vstd::std_specs::ops::NegSpecImpl for Length<U, T> {
    open spec fn obeys_neg_spec() -> bool {
        T::obeys_neg_spec()
    }

    open spec fn neg_req(self) -> bool {
        self.0.neg_req()
    }

    open spec fn neg_spec(self) -> Length<U, T> {
        Length::of(self.0.neg_spec())
    }
}

impl<U, T: Clone + Neg<Output = T>> Neg for Length<U, T> {
    type Output = Length<U, T>;

    #[inline]
    fn neg(self) -> (r: Length<U, T>)
        ensures
            T::obeys_neg_spec() ==> r == Length::<U, T>::of(self.0.neg_spec()),
    {
        Length::new(self.0.neg())
    }
}

impl<Unit, T: PartialEq> vstd::std_specs::cmp::PartialEqSpecImpl for Length<Unit, T> {
    open spec fn obeys_eq_spec() -> bool {
        T::obeys_eq_spec()
    }

    open spec fn eq_spec(&self, other: &Length<Unit, T>) -> bool {
        self.0.eq_spec(&other.0)
    }
}

impl<Unit, T: PartialEq> PartialEq for Length<Unit, T> {
    fn eq(&self, other: &Length<Unit, T>) -> (r: bool)
        ensures
            T::obeys_eq_spec() ==> r == self.0.eq_spec(&other.0),
    {
        self.0.eq(&other.0)
    }
}

impl<Unit, T: Eq> Eq for Length<Unit, T> {
}

impl<Unit, T: PartialOrd> vstd::std_specs::cmp::PartialOrdSpecImpl for Length<Unit, T> {
    open spec fn obeys_partial_cmp_spec() -> bool {
        T::obeys_partial_cmp_spec()
    }

    open spec fn partial_cmp_spec(&self, other: &Length<Unit, T>) -> Option<Ordering> {
        self.0.partial_cmp_spec(&other.0)
    }
}

impl<Unit, T: PartialOrd> PartialOrd for Length<Unit, T> {
    fn partial_cmp(&self, other: &Length<Unit, T>) -> (r: Option<Ordering>)
        ensures
            T::obeys_partial_cmp_spec() ==> r == self.0.partial_cmp_spec(&other.0),
    {
        self.0.partial_cmp(&other.0)
    }
}

impl<Unit, T> Length<Unit, T> {
    /// What a change of representation gives when the payload's own cast gave `p`.
    pub open spec fn cast_outcome(p: Option<T>) -> Option<Self> {
        match p {
            Some(v) => Some(Self::of(v)),
            None => None,
        }
    }

    /// The length that holds the outcome `p` of a change of representation:
    /// a length with the new payload, or none where there is no payload.
    pub fn from_cast(p: Option<T>) -> (r: Option<Length<Unit, T>>)
        ensures
            r == Self::cast_outcome(p),
    {
        match p {
            Some(v) => Some(Length::new(v)),
            None => None,
        }
    }
}

impl<Unit, T0: NumCast + Clone> Length<Unit, T0> {
    /// Cast from one numeric representation to another, preserving the units.
    ///
    /// Whether the payload is representable in `T1`, and by what value, is for
    /// `num::cast` to say: the result is what [`Length::cast_outcome`] makes of an
    /// outcome of that cast on a copy of the payload.
    pub fn cast<T1: NumCast + Clone>(&self) -> (r: Option<Length<Unit, T1>>)
        ensures
            exists|v: T0, p: Option<T1>|
                cloned::<T0>(self.0, v) && #[trigger] call_ensures(num::cast::<T0, T1>, (v,), p)
                    && r == Length::<Unit, T1>::cast_outcome(p),
    {
        let v = self.get();
        let p = num::cast::<T0, T1>(v);
        Length::from_cast(p)
    }
}

impl<Unit, T: Zero + Clone + Add<T, Output = T>> Zero for Length<Unit, T> {
    /// The length whose payload is the payload type's zero.
    fn zero() -> (r: Length<Unit, T>)
        ensures
            T::obeys_add_spec() ==> is_additive_identity(r.0),
            T::obeys_add_spec() ==> is_additive_identity(r),
    {
        let r = Length::new(payload_zero());
        proof {
            if T::obeys_add_spec() {
                assert forall|a: Length<Unit, T>| #[trigger]
                    a.add_spec(r) == a && r.add_spec(a) == a by {
                    assert(a.0.add_spec(r.0) == a.0);
                    assert(r.0.add_spec(a.0) == a.0);
                }
            }
        }
        r
    }

    /// Whether the payload is the payload type's zero.
    fn is_zero(&self) -> (r: bool)
        ensures
            T::obeys_add_spec() ==> (r <==> is_additive_identity(self.0)),
    {
        payload_is_zero(&self.0)
    }
}

} // verus!
