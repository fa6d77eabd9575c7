//! The two services that payloads borrow from the `num` crate: an additive
//! identity and a checked change of representation.

use core::ops::Add;
use num::{NumCast, Zero};
use vstd::prelude::*;
use vstd::std_specs::ops::AddSpec;

verus! {

/// Whether `z` leaves every value of `T` unchanged when added to it, on either side.
pub open spec fn is_additive_identity<T: Add<T, Output = T>>(z: T) -> bool {
    forall|a: T| #[trigger] a.add_spec(z) == a && z.add_spec(a) == a
}

/// Calls `num::Zero::zero`.
///
/// Trusted: the trait documents as its laws that `a + 0 = a` and `0 + a = a` for
/// every `a`. The contract repeats them for payload types whose addition follows
/// its own specification.
#[verifier::external_body]
pub(crate) fn payload_zero<T: Zero + Add<T, Output = T>>() -> (z: T)
    ensures
        T::obeys_add_spec() ==> is_additive_identity(z),
{
    Zero::zero()
}

/// `num::cast` may be called from verified code.
///
/// Trusted to return; which values are representable is for the two `NumCast`
/// impls to decide, so nothing is claimed of the result.
pub assume_specification<T: NumCast, U: NumCast>[ num::cast::<T, U> ](n: T) -> (r: Option<U>)
;

/// Calls `num::Zero::is_zero`.
///
/// Trusted: the trait documents that it tells whether the value is the additive
/// identity.
#[verifier::external_body]
pub(crate) fn payload_is_zero<T: Zero + Add<T, Output = T>>(x: &T) -> (r: bool)
    ensures
        T::obeys_add_spec() ==> (r <==> is_additive_identity(*x)),
{
    x.is_zero()
}

} // verus!
