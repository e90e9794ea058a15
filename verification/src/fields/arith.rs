//! Arithmetic of prime-field elements, as the witness computations need it.
use vstd::arithmetic::div_mod::*;
use vstd::arithmetic::mul::*;
use vstd::prelude::*;

verus! {

/// The field operations that witness generation uses, on elements of a prime
/// field `F_p` (the operations of `ff::Field` that the chips rely on).
///
/// Each element stands for a canonical integer in `[0, p)`.
pub trait FieldArith: Sized {
    /// The characteristic `p` of the field.
    spec fn modulus() -> nat;

    /// The canonical integer in `[0, p)` that the element stands for.
    spec fn value(&self) -> nat;

    /// Every element is canonical, and the field is not trivial.
    proof fn lemma_canonical(x: &Self)
        ensures
            Self::modulus() > 1,
            x.value() < Self::modulus(),
    ;

    /// The multiplicative inverse; there is none of zero.
    fn invert(&self) -> (r: Option<Self>)
        ensures
            r is None <==> self.value() == 0,
            r matches Some(i) ==> (i.value() * self.value()) % Self::modulus() == 1,
    ;

    /// The product `self * rhs` in the field.
    fn mul(&self, rhs: &Self) -> (r: Self)
        ensures
            r.value() == (self.value() * rhs.value()) % Self::modulus(),
    ;

    /// The additive inverse `-self` in the field.
    fn neg(&self) -> (r: Self)
        ensures
            r.value() == (Self::modulus() - self.value()) % (Self::modulus() as int),
    ;
}

/// If `i` inverts `b` modulo `m`, then `((x * i) mod m) * b` is `x` modulo `m`.
proof fn lemma_cancel_inverse(x: int, i: int, b: int, m: int)
    requires
        m > 0,
        (i * b) % m == 1,
    ensures
        (((x * i) % m) * b) % m == x % m,
{
    lemma_mul_mod_noop_left(x * i, b, m);
    lemma_mul_is_associative(x, i, b);
    lemma_mul_mod_noop_right(x, i * b, m);
}

/// If `q * b` is `a` modulo `m`, the difference `q * b - a` vanishes modulo `m`.
proof fn lemma_quotient_constraint(q: int, a: int, b: int, m: int)
    requires
        m > 0,
        0 <= a < m,
        (q * b) % m == a % m,
    ensures
        (q * b - a) % m == 0,
{
    lemma_sub_mod_noop(q * b, a, m);
    lemma_small_mod(a as nat, m as nat);
    lemma_small_mod(0, m as nat);
    assert((q * b) % m - a % m == 0);
}

/// If `q * b` is `-a` modulo `m` (with `na` the canonical `-a`), then `q * b + a` vanishes.
proof fn lemma_neg_quotient_constraint(q: int, a: int, na: int, b: int, m: int)
    requires
        m > 0,
        0 <= a < m,
        na == (m - a) % m,
        (q * b) % m == na % m,
    ensures
        (q * b + a) % m == 0,
{
    lemma_add_mod_noop(q * b, a, m);
    lemma_mod_twice(m - a, m);
    lemma_add_mod_noop(m - a, a, m);
    lemma_small_mod(a as nat, m as nat);
    lemma_mod_self_0(m);
}

/// The value that `FieldChip::divide` witnesses as the quotient `a / b`:
/// `a * b^-1` when both values are known and `b` is not zero, else unknown.
pub fn quotient_value<T: FieldArith>(a_val: Option<T>, b_val: Option<T>) -> (r: Option<T>)
    ensures
        r is Some <==> (a_val is Some && b_val is Some && b_val->0.value() != 0),
        r matches Some(q) ==> q.value() < T::modulus() && (q.value() as int * b_val->0.value()
            - a_val->0.value()) % (T::modulus() as int) == 0,
{
    let b_inv: Option<T> = match &b_val {
        Some(bv) => bv.invert(),
        None => None,
    };
    match (a_val, b_inv) {
        (Some(a), Some(bi)) => {
            let q = a.mul(&bi);
            proof {
                let m: int = T::modulus() as int;
                T::lemma_canonical(&q);
                T::lemma_canonical(&a);
                let bv = b_val->0;
                lemma_cancel_inverse(a.value() as int, bi.value() as int, bv.value() as int, m);
                lemma_quotient_constraint(q.value() as int, a.value() as int, bv.value() as int, m);
            }
            Some(q)
        },
        _ => None,
    }
}

/// The value that `FieldChip::neg_divide` witnesses as the quotient `-a / b`:
/// `-a * b^-1` when both values are known and `b` is not zero, else unknown.
pub fn neg_quotient_value<T: FieldArith>(a_val: Option<T>, b_val: Option<T>) -> (r: Option<T>)
    ensures
        r is Some <==> (a_val is Some && b_val is Some && b_val->0.value() != 0),
        r matches Some(q) ==> q.value() < T::modulus() && (q.value() as int * b_val->0.value()
            + a_val->0.value()) % (T::modulus() as int) == 0,
{
    let b_inv: Option<T> = match &b_val {
        Some(bv) => bv.invert(),
        None => None,
    };
    match (a_val, b_inv) {
        (Some(a), Some(bi)) => {
            let na = a.neg();
            let q = na.mul(&bi);
            proof {
                let m: int = T::modulus() as int;
                T::lemma_canonical(&q);
                T::lemma_canonical(&a);
                let bv = b_val->0;
                lemma_cancel_inverse(na.value() as int, bi.value() as int, bv.value() as int, m);
                lemma_neg_quotient_constraint(q.value() as int, a.value() as int, na.value() as int,
                    bv.value() as int, m);
            }
            Some(q)
        },
        _ => None,
    }
}

} // verus!
