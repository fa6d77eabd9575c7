//! Algebraic laws of lengths.
//!
//! A length computes with its payload's own arithmetic, so each law is stated
//! twice: once for every payload type, as holding of two lengths exactly when it
//! holds of their payloads, and once each for `i64` and `u64` payloads, where it
//! holds whenever the arithmetic does not overflow.

use crate::length::Length;
use crate::numeric::is_additive_identity;
use crate::scale_factor::ScaleFactor;
use core::cmp::Ordering;
use core::ops::{Add, Div, Mul, Neg, Sub};
use vstd::laws_cmp::obeys_cmp_partial_ord;
use vstd::prelude::*;
use vstd::std_specs::cmp::{PartialEqSpec, PartialOrdSpec};
use vstd::std_specs::ops::{AddSpec, DivSpec, MulSpec, NegSpec, SubSpec};

verus! {

/// A length whose payload is an additive identity of the payloads is an additive
/// identity of the lengths: added to any length, on either side, it gives that length.
pub proof fn lemma_additive_identity<U, T: Clone + Add<T, Output = T>>(
    q: Length<U, T>,
    z: Length<U, T>,
)
    requires
        is_additive_identity(z.0),
    ensures
        q.add_spec(z) == q,
        z.add_spec(q) == q,
        is_additive_identity(z),
{
    assert(q.0.add_spec(z.0) == q.0);
    assert(z.0.add_spec(q.0) == q.0);
    assert forall|a: Length<U, T>| #[trigger] a.add_spec(z) == a && z.add_spec(a) == a by {
        assert(a.0.add_spec(z.0) == a.0);
        assert(z.0.add_spec(a.0) == a.0);
    }
}

/// Subtracting `b` after adding it gives `a` back exactly when it does so for the payloads.
pub proof fn lemma_add_then_sub<U, T: Clone + Add<T, Output = T> + Sub<T, Output = T>>(
    a: Length<U, T>,
    b: Length<U, T>,
)
    ensures
        a.add_spec(b).sub_spec(b) == a <==> a.0.add_spec(b.0).sub_spec(b.0) == a.0,
        a.add_spec(b).sub_req(b) <==> a.0.add_spec(b.0).sub_req(b.0),
{
}

/// Negating twice gives `q` back exactly when it does so for the payload.
pub proof fn lemma_neg_neg<U, T: Clone + Neg<Output = T>>(q: Length<U, T>)
    ensures
        q.neg_spec().neg_spec() == q <==> q.0.neg_spec().neg_spec() == q.0,
        q.neg_spec().neg_req() <==> q.0.neg_spec().neg_req(),
{
}

/// Dividing by a scale factor after multiplying by it gives `q` back exactly when
/// it does so for the payload and the ratio.
pub proof fn lemma_mul_then_div<Src, Dst, T: Clone + Mul<T, Output = T> + Div<T, Output = T>>(
    q: Length<Src, T>,
    f: ScaleFactor<Src, Dst, T>,
)
    ensures
        q.mul_spec(f).div_spec(f) == q <==> q.0.mul_spec(f.0).div_spec(f.0) == q.0,
        q.mul_spec(f).div_req(f) <==> q.0.mul_spec(f.0).div_req(f.0),
{
}

/// Whether `a == b` holds.
pub open spec fn is_eq<U, T: PartialEq>(a: Length<U, T>, b: Length<U, T>) -> bool {
    a.eq_spec(&b)
}

/// Whether `a < b` holds.
pub open spec fn is_lt<U, T: PartialOrd>(a: Length<U, T>, b: Length<U, T>) -> bool {
    a.partial_cmp_spec(&b) == Some(Ordering::Less)
}

/// Whether `a > b` holds.
pub open spec fn is_gt<U, T: PartialOrd>(a: Length<U, T>, b: Length<U, T>) -> bool {
    a.partial_cmp_spec(&b) == Some(Ordering::Greater)
}

/// Whether the order relates `a` and `b` at all.
pub open spec fn comparable<U, T: PartialOrd>(a: Length<U, T>, b: Length<U, T>) -> bool {
    a.partial_cmp_spec(&b) is Some
}

/// Two lengths are equal, and ordered, exactly as their payloads are by the
/// payload type's own equality and order.
pub proof fn lemma_compares_as_payload<U, T: PartialOrd>(a: Length<U, T>, b: Length<U, T>)
    ensures
        is_eq(a, b) == a.0.eq_spec(&b.0),
        a.partial_cmp_spec(&b) == a.0.partial_cmp_spec(&b.0),
        Length::<U, T>::obeys_eq_spec() == T::obeys_eq_spec(),
        Length::<U, T>::obeys_partial_cmp_spec() == T::obeys_partial_cmp_spec(),
{
}

/// What a change of representation gives: a length exactly where the payload's
/// own cast gave a value, and then the length of that value.
pub proof fn lemma_cast_outcome<U, T>(p: Option<T>)
    ensures
        Length::<U, T>::cast_outcome(p) is Some <==> p is Some,
        p is Some ==> Length::<U, T>::cast_outcome(p).unwrap().0 == p.unwrap(),
{
}

/// Where the payload's equality agrees with its order, two comparable lengths
/// stand in exactly one of less, equal and greater, and two incomparable ones in none.
pub proof fn lemma_trichotomy<U, T: PartialOrd>(a: Length<U, T>, b: Length<U, T>)
    requires
        obeys_cmp_partial_ord::<T>(),
    ensures
        comparable(a, b) ==> {
            ||| is_lt(a, b) && !is_eq(a, b) && !is_gt(a, b)
            ||| !is_lt(a, b) && is_eq(a, b) && !is_gt(a, b)
            ||| !is_lt(a, b) && !is_eq(a, b) && is_gt(a, b)
        },
        !comparable(a, b) ==> !is_lt(a, b) && !is_eq(a, b) && !is_gt(a, b),
{
    reveal(obeys_cmp_partial_ord);
    match a.0.partial_cmp_spec(&b.0) {
        Some(Ordering::Less) => {},
        Some(Ordering::Equal) => {},
        Some(Ordering::Greater) => {},
        None => {},
    }
}

/// Among 64-bit signed integers zero is the additive identity, and the only one.
pub proof fn lemma_additive_identity_i64(z: i64)
    ensures
        is_additive_identity(z) <==> z == 0,
{
    if is_additive_identity(z) {
        assert(0i64.add_spec(z) == 0i64);
    }
}

/// With 64-bit signed integer payloads, where `a + b` does not overflow,
/// `b` can be subtracted from the sum, and that gives `a`.
pub proof fn lemma_add_then_sub_i64<U>(a: Length<U, i64>, b: Length<U, i64>)
    requires
        a.add_req(b),
    ensures
        a.add_spec(b).0 == a.0 + b.0,
        a.add_spec(b).sub_req(b),
        a.add_spec(b).sub_spec(b) == a,
{
}

/// With 64-bit signed integer payloads, where `-q` does not overflow,
/// it can be negated again, and that gives `q`.
pub proof fn lemma_neg_neg_i64<U>(q: Length<U, i64>)
    requires
        q.neg_req(),
    ensures
        q.neg_spec().0 == -q.0,
        q.neg_spec().neg_req(),
        q.neg_spec().neg_spec() == q,
{
}

/// With 64-bit signed integer payloads, where the ratio is not zero and the
/// product does not overflow, the product can be divided by the ratio,
/// and that gives `q`.
pub proof fn lemma_mul_then_div_i64<Src, Dst>(q: Length<Src, i64>, f: ScaleFactor<Src, Dst, i64>)
    requires
        f.0 != 0,
        q.mul_req(f),
    ensures
        q.mul_spec(f).0 == q.0 * f.0,
        q.mul_spec(f).div_req(f),
        q.mul_spec(f).div_spec(f) == q,
{
    let x: int = q.0 as int;
    let r: int = f.0 as int;
    lemma_exact_quotient(x, r);
    lemma_exact_quotient(-x, r);
    assert((-x) * r == -(x * r)) by (nonlinear_arith);
    assert(r == -1 ==> x * r == -x) by (nonlinear_arith);
}

/// Among 64-bit unsigned integers zero is the additive identity, and the only one.
pub proof fn lemma_additive_identity_u64(z: u64)
    ensures
        is_additive_identity(z) <==> z == 0,
{
    if is_additive_identity(z) {
        assert(0u64.add_spec(z) == 0u64);
    }
}

/// With 64-bit unsigned integer payloads, where `a + b` does not overflow,
/// `b` can be subtracted from the sum, and that gives `a`.
pub proof fn lemma_add_then_sub_u64<U>(a: Length<U, u64>, b: Length<U, u64>)
    requires
        a.add_req(b),
    ensures
        a.add_spec(b).0 == a.0 + b.0,
        a.add_spec(b).sub_req(b),
        a.add_spec(b).sub_spec(b) == a,
{
}

/// With 64-bit unsigned integer payloads, a difference is defined exactly
/// where the second operand is not the larger.
pub proof fn lemma_sub_defined_u64<U>(a: Length<U, u64>, b: Length<U, u64>)
    ensures
        a.sub_req(b) <==> b.0 <= a.0,
        a.sub_req(b) ==> a.sub_spec(b).0 == a.0 - b.0,
{
}

/// With 64-bit unsigned integer payloads, where the ratio is not zero and the
/// product does not overflow, the product can be divided by the ratio,
/// and that gives `q`.
pub proof fn lemma_mul_then_div_u64<Src, Dst>(q: Length<Src, u64>, f: ScaleFactor<Src, Dst, u64>)
    requires
        f.0 != 0,
        q.mul_req(f),
    ensures
        q.mul_spec(f).0 == q.0 * f.0,
        q.mul_spec(f).div_req(f),
        q.mul_spec(f).div_spec(f) == q,
{
    lemma_exact_quotient(q.0 as int, f.0 as int);
}

/// 64-bit unsigned integer payloads are totally ordered: two lengths are always
/// comparable, in the order of their payloads, so exactly one of less, equal
/// and greater holds.
pub proof fn lemma_total_order_u64<U>(a: Length<U, u64>, b: Length<U, u64>)
    ensures
        comparable(a, b),
        is_lt(a, b) <==> a.0 < b.0,
        is_eq(a, b) <==> a.0 == b.0,
        is_gt(a, b) <==> a.0 > b.0,
{
}

/// A product divided by one of its factors, where that is not zero, gives the other.
proof fn lemma_exact_quotient(y: int, r: int)
    requires
        r != 0,
    ensures
        (y * r) / r == y,
{
    if r > 0 {
        vstd::arithmetic::div_mod::lemma_div_multiples_vanish(y, r);
        assert(r * y == y * r) by (nonlinear_arith);
    } else {
        let p = y * r;
        let q = p / r;
        let m = p % r;
        vstd::arithmetic::div_mod::lemma_fundamental_div_mod(p, r);
        assert(0 <= m < -r) by (nonlinear_arith)
            requires
                r < 0,
                m == p % r,
        ;
        assert(r * (y - q) == m) by (nonlinear_arith)
            requires
                p == y * r,
                p == r * q + m,
        ;
        assert(y == q) by (nonlinear_arith)
            requires
                r * (y - q) == m,
                0 <= m < -r,
                r < 0,
        ;
    }
}

/// 64-bit signed integer payloads are totally ordered: two lengths are always
/// comparable, in the order of their payloads, so exactly one of less, equal
/// and greater holds.
pub proof fn lemma_total_order_i64<U>(a: Length<U, i64>, b: Length<U, i64>)
    ensures
        comparable(a, b),
        is_lt(a, b) <==> a.0 < b.0,
        is_eq(a, b) <==> a.0 == b.0,
        is_gt(a, b) <==> a.0 > b.0,
{
}

} // verus!
