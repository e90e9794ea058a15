//! What the constraints of division determine, stated over the integers that
//! the chips' points stand for.
use vstd::arithmetic::div_mod::*;
use vstd::arithmetic::mul::*;
use vstd::prelude::*;

verus! {

/// Two integers whose difference vanishes modulo `m` are congruent.
proof fn lemma_congruent_of_difference(x: int, y: int, m: int)
    requires
        m > 0,
        (x - y) % m == 0,
    ensures
        x % m == y % m,
{
    lemma_add_mod_noop(x - y, y, m);
    lemma_mod_twice(y, m);
}

/// A constraint that holds of the residues of `b` and `a` holds of `b` and
/// `a` themselves: `w * (b mod m) - (a mod m) = 0 mod m` gives `w * b - a = 0 mod m`.
pub(crate) proof fn lemma_constraint_of_residues(w: int, a: int, b: int, m: int)
    requires
        m > 0,
        (w * (b % m) - a % m) % m == 0,
    ensures
        (w * b - a) % m == 0,
{
    lemma_congruent_of_difference(w * (b % m), a % m, m);
    lemma_mul_mod_noop_right(w, b, m);
    lemma_mod_twice(a, m);
    lemma_sub_mod_noop(w * b, a, m);
    lemma_small_mod(0, m as nat);
}

/// The same for the constraint of negated division:
/// `w * (b mod m) + (a mod m) = 0 mod m` gives `w * b + a = 0 mod m`.
pub(crate) proof fn lemma_neg_constraint_of_residues(w: int, a: int, b: int, m: int)
    requires
        m > 0,
        (w * (b % m) + a % m) % m == 0,
    ensures
        (w * b + a) % m == 0,
{
    lemma_mul_mod_noop_right(w, b, m);
    lemma_add_mod_noop(w * (b % m), a % m, m);
    lemma_add_mod_noop(w * b, a, m);
    lemma_mod_twice(a, m);
}

/// Multiplying by `b` and then by an inverse `i` of `b` gives back `x` modulo `m`.
proof fn lemma_times_inverse(x: int, b: int, i: int, m: int)
    requires
        m > 0,
        (i * b) % m == 1,
    ensures
        ((x * b) * i) % m == x % m,
{
    lemma_mul_is_associative(x, b, i);
    lemma_mul_is_commutative(b, i);
    lemma_mul_mod_noop_right(x, i * b, m);
}

/// Congruent integers stay congruent when multiplied by the same factor.
proof fn lemma_congruent_times(x: int, y: int, k: int, m: int)
    requires
        m > 0,
        x % m == y % m,
    ensures
        (x * k) % m == (y * k) % m,
{
    lemma_mul_mod_noop_left(x, k, m);
    lemma_mul_mod_noop_left(y, k, m);
}

/// Division is sound: whenever `b` is invertible modulo `p` (with inverse `i`),
/// every quotient `q` that satisfies the constraint of `FieldChip::divide`,
/// `q * b - a = 0 mod p`, is `a * b^-1` modulo `p`.
pub proof fn law_divide_constraint_fixes_quotient(q: int, a: int, b: int, i: int, p: int)
    requires
        p > 1,
        (i * b) % p == 1,
        (q * b - a) % p == 0,
    ensures
        q % p == (a * i) % p,
{
    lemma_congruent_of_difference(q * b, a, p);
    lemma_congruent_times(q * b, a, i, p);
    lemma_times_inverse(q, b, i, p);
}

/// Negated division is sound: whenever `b` is invertible modulo `p` (with
/// inverse `i`), every quotient `q` that satisfies the constraint of
/// `FieldChip::neg_divide`, `q * b + a = 0 mod p`, is `-a * b^-1` modulo `p`.
pub proof fn law_neg_divide_constraint_fixes_quotient(q: int, a: int, b: int, i: int, p: int)
    requires
        p > 1,
        (i * b) % p == 1,
        (q * b + a) % p == 0,
    ensures
        q % p == ((-a) * i) % p,
{
    assert(q * b - (-a) == q * b + a);
    law_divide_constraint_fixes_quotient(q, -a, b, i, p);
}

/// The quotients of `neg_divide` and of `divide` of the same `a` by an
/// invertible `b` are opposite modulo `p`: `neg_divide(a, b) = -divide(a, b)`.
pub proof fn law_neg_divide_negates_divide(q: int, nq: int, a: int, b: int, i: int, p: int)
    requires
        p > 1,
        (i * b) % p == 1,
        (q * b - a) % p == 0,
        (nq * b + a) % p == 0,
    ensures
        (q + nq) % p == 0,
{
    lemma_add_mod_noop(q * b - a, nq * b + a, p);
    lemma_small_mod(0, p as nat);
    lemma_mul_is_distributive_add_other_way(b, q, nq);
    assert((q + nq) * b == (q * b - a) + (nq * b + a));
    lemma_congruent_times((q + nq) * b, 0, i, p);
    lemma_times_inverse(q + nq, b, i, p);
}

/// `neg_divide(a, b)` is `divide(-a, b)`, only cheaper: if `na` is `-a` modulo
/// `p` (as `FieldChip::negate` makes it), the quotient `q` of dividing `na` by
/// an invertible `b` and the quotient `nq` of `neg_divide(a, b)` agree modulo `p`.
pub proof fn law_neg_divide_is_divide_of_negation(
    nq: int,
    q: int,
    na: int,
    a: int,
    b: int,
    i: int,
    p: int,
)
    requires
        p > 1,
        (i * b) % p == 1,
        na % p == (-a) % p,
        (q * b - na) % p == 0,
        (nq * b + a) % p == 0,
    ensures
        nq % p == q % p,
{
    law_divide_constraint_fixes_quotient(q, na, b, i, p);
    law_neg_divide_constraint_fixes_quotient(nq, a, b, i, p);
    lemma_congruent_times(na, -a, i, p);
}

/// Dividing a product by one of its factors gives back the other factor:
/// if `c` is the result of `FieldChip::mul` on `x` and `b` (so `c = x * b mod p`)
/// and `q` satisfies the constraint of dividing `c` by an invertible `b`,
/// then `q = x` modulo `p`.
pub proof fn law_divide_undoes_mul(q: int, c: int, x: int, b: int, i: int, p: int)
    requires
        p > 1,
        (i * b) % p == 1,
        c % p == (x * b) % p,
        (q * b - c) % p == 0,
    ensures
        q % p == x % p,
{
    law_divide_constraint_fixes_quotient(q, c, b, i, p);
    lemma_congruent_times(c, x * b, i, p);
    lemma_times_inverse(x, b, i, p);
}

/// The result of `FieldChip::mul` is the reduced product: whatever its
/// operands, whether or not their values are known, the integer `c` it returns
/// (`c = a * b mod p`) lies in `[0, p)`, and it is the only integer there that
/// is congruent to `a * b`; an unreduced product, congruent but not below `p`,
/// is not it.
pub proof fn law_mul_is_reduced_product(a: int, b: int, c: int, d: int, p: int)
    requires
        p > 1,
        c == (a * b) % p,
        0 <= d < p,
        (d - a * b) % p == 0,
    ensures
        0 <= c < p,
        c == d,
{
    lemma_mod_bound(a * b, p);
    lemma_congruent_of_difference(d, a * b, p);
    lemma_small_mod(d as nat, p as nat);
}

/// `FieldChip::mul` commutes: `mul(a, b)` and `mul(b, a)` stand for the same integer.
pub proof fn law_mul_commutes(a: int, b: int, c1: int, c2: int, p: int)
    requires
        p > 1,
        c1 == (a * b) % p,
        c2 == (b * a) % p,
    ensures
        c1 == c2,
{
    lemma_mul_is_commutative(a, b);
}

/// Division is complete: when the values of `a` and `b` are known and `b` is
/// invertible modulo `p` (with inverse `i`), the quotient that
/// `FieldChip::divide` witnesses, a `w` in `[0, p)` with `w * b - a = 0 mod p`,
/// is exactly `a * b^-1 mod p`, so its constraint is met. In particular
/// `divide(0, b)` witnesses 0.
pub proof fn law_divide_witness_is_quotient(w: int, a: int, b: int, i: int, p: int)
    requires
        p > 1,
        (i * b) % p == 1,
        0 <= w < p,
        (w * b - a) % p == 0,
    ensures
        w == (a * i) % p,
        a % p == 0 ==> w == 0,
{
    law_divide_constraint_fixes_quotient(w, a, b, i, p);
    lemma_small_mod(w as nat, p as nat);
    if a % p == 0 {
        lemma_mul_mod_noop_left(a, i, p);
        lemma_mul_basics(i);
        lemma_small_mod(0, p as nat);
    }
}

/// Negated division is complete: when the values of `a` and `b` are known and
/// `b` is invertible modulo `p` (with inverse `i`), the quotient that
/// `FieldChip::neg_divide` witnesses, a `w` in `[0, p)` with
/// `w * b + a = 0 mod p`, is exactly `-a * b^-1 mod p`, so its constraint is
/// met. In particular `neg_divide(0, b)` witnesses 0.
pub proof fn law_neg_divide_witness_is_quotient(w: int, a: int, b: int, i: int, p: int)
    requires
        p > 1,
        (i * b) % p == 1,
        0 <= w < p,
        (w * b + a) % p == 0,
    ensures
        w == ((-a) * i) % p,
        a % p == 0 ==> w == 0,
{
    assert(w * b - (-a) == w * b + a);
    law_divide_witness_is_quotient(w, -a, b, i, p);
    if a % p == 0 {
        lemma_mod_multiples_vanish(-1, 0, p);
        assert(-a == a * (-1));
        lemma_mul_mod_noop_left(a, -1, p);
        lemma_small_mod(0, p as nat);
    }
}

} // verus!
