pub mod arith;
pub mod laws;

use crate::fields::arith::{neg_quotient_value, quotient_value, FieldArith};
use crate::fields::laws::{lemma_constraint_of_residues, lemma_neg_constraint_of_residues};
use halo2_proofs::plonk::Error;
use std::fmt::Debug;
use vstd::prelude::*;

verus! {

/// A point of the extension field `F_q = F_p[X] / (irreducible of degree d)`,
/// given by its `degree` coefficients over `F_p`.
///
/// The coefficients are the base-field integers of the chip in use (in the
/// circuit they are overflow integers in CRT form); which irreducible
/// polynomial builds `F_q` is left to the implementation.
#[derive(Clone, Debug)]
pub struct FqPoint<C> {
    pub coeffs: Vec<C>,
    pub degree: usize,
}

impl<C> FqPoint<C> {
    /// A point is well formed when it holds exactly `degree` coefficients.
    pub open spec fn wf(&self) -> bool {
        self.coeffs.len() == self.degree
    }

    /// Builds a point from its coefficients; there must be exactly `degree` of them.
    pub fn construct(coeffs: Vec<C>, degree: usize) -> (r: Self)
        requires
            coeffs.len() == degree,
        ensures
            r.coeffs@ == coeffs@,
            r.degree == degree,
            r.wf(),
    {
        FqPoint { coeffs, degree }
    }
}

/// Common functionality of the finite-field chips.
///
/// A chip lays out the constraints of field arithmetic in a circuit over the
/// native field `F`. A `FieldPoint` is an assigned value of the emulated field
/// `F_p`, kept as an overflow integer: `point_value` is the integer it stands
/// for, which need not be reduced modulo `p`. The operations named `*_no_carry`
/// compute that integer exactly; `carry_mod` reduces it modulo `p`.
///
/// The circuit cells that comparisons return (halo2's `AssignedCell<F, F>`)
/// are the associated type `Cell`; the layouter that places the constraints
/// is the associated type `Layouter`.
pub trait FieldChip<F>: Sized {
    type ConstantType: Debug;
    type WitnessType: Debug;
    type FieldPoint: Clone + Debug;
    /// A type implementing field arithmetic, to help with witness generation
    /// (for example with inverse).
    type FieldType: FieldArith;
    type RangeChip;
    type Layouter;
    type Cell;

    /// The integer that an assigned field point stands for.
    ///
    /// A chip defines it for its own points; a verified chip must. (The
    /// default only lets chips written outside Verus leave it out.)
    open spec fn point_value(x: &Self::FieldPoint) -> int {
        0
    }

    /// Whether the prover knows the value of a point; the value it knows is
    /// then `point_value(x)` reduced modulo `p`, as `get_assigned_value`
    /// returns it.
    ///
    /// A chip defines it for its own points; a verified chip must. By
    /// default no value is known.
    open spec fn is_assigned(x: &Self::FieldPoint) -> bool {
        false
    }

    /// Whether a point passed the chip's range check, as `range_check`
    /// constrains it.
    ///
    /// A chip defines it for its own points; a verified chip must. By
    /// default no point passes.
    open spec fn in_range(x: &Self::FieldPoint) -> bool {
        false
    }

    /// The integer that a witness holds, if it is known.
    ///
    /// A chip defines it for its own witnesses; a verified chip must. By
    /// default nothing is known.
    open spec fn witness_value(w: &Self::WitnessType) -> Option<nat> {
        None
    }

    /// The private witnesses that the chip has been handed to load, in order:
    /// `load_private` appends one, and no other operation changes them.
    ///
    /// A chip defines it for itself; a verified chip must. By default the
    /// chip records nothing.
    open spec fn loaded_witnesses(&self) -> Seq<Option<nat>> {
        Seq::empty()
    }

    fn range(&mut self) -> &mut Self::RangeChip;

    /// The value that the prover knows for `x`, if any: `point_value(x) mod p`.
    fn get_assigned_value(x: &Self::FieldPoint) -> (r: Option<Self::FieldType>)
        ensures
            r is Some <==> Self::is_assigned(x),
            r matches Some(v) ==> v.value() == Self::point_value(x) % (
            Self::FieldType::modulus() as int),
    ;

    fn fe_to_witness(x: &Option<Self::FieldType>) -> (r: Self::WitnessType)
        ensures
            Self::witness_value(&r) == (match x {
                Some(v) => Some(v.value()),
                None => None,
            }),
    ;

    /// Assigns a point of the value that the witness holds; the point's value
    /// is known when the witness is.
    fn load_private(&mut self, layouter: &mut Self::Layouter, coeffs: Self::WitnessType) -> (r:
        Result<Self::FieldPoint, Error>)
        ensures
            r matches Ok(p) ==> (Self::witness_value(&coeffs) matches Some(v) ==> Self::point_value(
                &p,
            ) == v && Self::is_assigned(&p)),
            final(self).loaded_witnesses() == old(self).loaded_witnesses().push(
                Self::witness_value(&coeffs),
            ),
    ;

    fn load_constant(&mut self, layouter: &mut Self::Layouter, coeffs: Self::ConstantType) -> (r:
        Result<Self::FieldPoint, Error>)
        ensures
            final(self).loaded_witnesses() == old(self).loaded_witnesses(),
    ;

    fn add_no_carry(
        &mut self,
        layouter: &mut Self::Layouter,
        a: &Self::FieldPoint,
        b: &Self::FieldPoint,
    ) -> (r: Result<Self::FieldPoint, Error>)
        ensures
            final(self).loaded_witnesses() == old(self).loaded_witnesses(),
            r matches Ok(c) ==> Self::point_value(&c) == Self::point_value(a) + Self::point_value(b),
            r matches Ok(c) ==> (Self::is_assigned(a) && Self::is_assigned(b) ==> Self::is_assigned(
                &c,
            )),
    ;

    fn sub_no_carry(
        &mut self,
        layouter: &mut Self::Layouter,
        a: &Self::FieldPoint,
        b: &Self::FieldPoint,
    ) -> (r: Result<Self::FieldPoint, Error>)
        ensures
            final(self).loaded_witnesses() == old(self).loaded_witnesses(),
            r matches Ok(c) ==> Self::point_value(&c) == Self::point_value(a) - Self::point_value(b),
            r matches Ok(c) ==> (Self::is_assigned(a) && Self::is_assigned(b) ==> Self::is_assigned(
                &c,
            )),
    ;

    fn negate(&mut self, layouter: &mut Self::Layouter, a: &Self::FieldPoint) -> (r: Result<
        Self::FieldPoint,
        Error,
    >)
        ensures
            final(self).loaded_witnesses() == old(self).loaded_witnesses(),
            r matches Ok(c) ==> Self::point_value(&c) % (Self::FieldType::modulus() as int) == (
            -Self::point_value(a)) % (Self::FieldType::modulus() as int),
            r matches Ok(c) ==> (Self::is_assigned(a) ==> Self::is_assigned(&c)),
    ;

    fn scalar_mul_no_carry(
        &mut self,
        layouter: &mut Self::Layouter,
        a: &Self::FieldPoint,
        b: F,
    ) -> (r: Result<Self::FieldPoint, Error>)
        ensures
            final(self).loaded_witnesses() == old(self).loaded_witnesses(),
            r matches Ok(c) ==> (Self::is_assigned(a) ==> Self::is_assigned(&c)),
    ;

    fn mul_no_carry(
        &mut self,
        layouter: &mut Self::Layouter,
        a: &Self::FieldPoint,
        b: &Self::FieldPoint,
    ) -> (r: Result<Self::FieldPoint, Error>)
        ensures
            final(self).loaded_witnesses() == old(self).loaded_witnesses(),
            r matches Ok(c) ==> Self::point_value(&c) == Self::point_value(a) * Self::point_value(b),
            r matches Ok(c) ==> (Self::is_assigned(a) && Self::is_assigned(b) ==> Self::is_assigned(
                &c,
            )),
    ;

    fn check_carry_mod_to_zero(&mut self, layouter: &mut Self::Layouter, a: &Self::FieldPoint) -> (r:
        Result<(), Error>)
        ensures
            final(self).loaded_witnesses() == old(self).loaded_witnesses(),
            r is Ok ==> Self::point_value(a) % (Self::FieldType::modulus() as int) == 0,
    ;

    fn carry_mod(&mut self, layouter: &mut Self::Layouter, a: &Self::FieldPoint) -> (r: Result<
        Self::FieldPoint,
        Error,
    >)
        ensures
            final(self).loaded_witnesses() == old(self).loaded_witnesses(),
            r matches Ok(c) ==> Self::point_value(&c) % (Self::FieldType::modulus() as int)
                == Self::point_value(a) % (Self::FieldType::modulus() as int),
            r matches Ok(c) ==> Self::point_value(&c) == Self::point_value(a) % (
            Self::FieldType::modulus() as int),
            r matches Ok(c) ==> (Self::is_assigned(a) ==> Self::is_assigned(&c)),
    ;

    fn range_check(&mut self, layouter: &mut Self::Layouter, a: &Self::FieldPoint) -> (r: Result<
        (),
        Error,
    >)
        ensures
            final(self).loaded_witnesses() == old(self).loaded_witnesses(),
            r is Ok ==> Self::in_range(a),
    ;

    fn is_zero(&mut self, layouter: &mut Self::Layouter, a: &Self::FieldPoint) -> (r: Result<
        Self::Cell,
        Error,
    >)
        ensures
            final(self).loaded_witnesses() == old(self).loaded_witnesses(),
    ;

    fn is_equal(
        &mut self,
        layouter: &mut Self::Layouter,
        a: &Self::FieldPoint,
        b: &Self::FieldPoint,
    ) -> (r: Result<Self::Cell, Error>)
        ensures
            final(self).loaded_witnesses() == old(self).loaded_witnesses(),
    ;

    /// Constrains and returns `a * b` reduced modulo `p`; its value is known
    /// when those of `a` and `b` are.
    fn mul(&mut self, layouter: &mut Self::Layouter, a: &Self::FieldPoint, b: &Self::FieldPoint) -> (r:
        Result<Self::FieldPoint, Error>)
        ensures
            r matches Ok(c) ==> Self::point_value(&c) % (Self::FieldType::modulus() as int) == (
            Self::point_value(a) * Self::point_value(b)) % (Self::FieldType::modulus() as int),
            r matches Ok(c) ==> Self::point_value(&c) == (Self::point_value(a) * Self::point_value(b))
                % (Self::FieldType::modulus() as int),
            r matches Ok(c) ==> (Self::is_assigned(a) && Self::is_assigned(b) ==> Self::is_assigned(
                &c,
            )),
            final(self).loaded_witnesses() == old(self).loaded_witnesses(),
    {
        let no_carry = self.mul_no_carry(layouter, a, b)?;
        self.carry_mod(layouter, &no_carry)
    }

    /// Constrains and returns `a / b`: the quotient `q` is witnessed as
    /// `a * b^-1`, range checked, and constrained by `q * b - a = 0 mod p`.
    /// When the values of `a` and `b` are known and `b` is not zero, the
    /// quotient's value is known and its integer is the canonical one, below `p`.
    fn divide(
        &mut self,
        layouter: &mut Self::Layouter,
        a: &Self::FieldPoint,
        b: &Self::FieldPoint,
    ) -> (r: Result<Self::FieldPoint, Error>)
        ensures
            r matches Ok(q) ==> (Self::point_value(&q) * Self::point_value(b) - Self::point_value(a))
                % (Self::FieldType::modulus() as int) == 0,
            r matches Ok(q) ==> Self::in_range(&q),
            r matches Ok(q) ==> (Self::is_assigned(a) && Self::is_assigned(b)
                && Self::point_value(b) % (Self::FieldType::modulus() as int) != 0 ==> Self::is_assigned(
                &q,
            ) && 0 <= Self::point_value(&q) < Self::FieldType::modulus()),
            final(self).loaded_witnesses().len() == old(self).loaded_witnesses().len() + 1,
            final(self).loaded_witnesses().drop_last() == old(self).loaded_witnesses(),
            match final(self).loaded_witnesses().last() {
                Some(w) => Self::is_assigned(a) && Self::is_assigned(b) && Self::point_value(b) % (
                Self::FieldType::modulus() as int) != 0 && w < Self::FieldType::modulus() && (w
                    * Self::point_value(b) - Self::point_value(a)) % (Self::FieldType::modulus() as int)
                    == 0,
                None => !(Self::is_assigned(a) && Self::is_assigned(b) && Self::point_value(b) % (
                Self::FieldType::modulus() as int) != 0),
            },
    {
        let a_val = Self::get_assigned_value(a);
        let b_val = Self::get_assigned_value(b);
        let quot_val = quotient_value(a_val, b_val);
        proof {
            if quot_val is Some {
                lemma_constraint_of_residues(
                    quot_val->0.value() as int,
                    Self::point_value(a),
                    Self::point_value(b),
                    Self::FieldType::modulus() as int,
                );
            }
        }

        let quot = self.load_private(layouter, Self::fe_to_witness(&quot_val))?;
        self.range_check(layouter, &quot)?;

        // constrain quot * b - a = 0 mod p
        let quot_b = self.mul_no_carry(layouter, &quot, b)?;
        let quot_constraint = self.sub_no_carry(layouter, &quot_b, a)?;
        self.check_carry_mod_to_zero(layouter, &quot_constraint)?;

        Ok(quot)
    }

    /// Constrains and returns `-a / b`, which is usually cheaper than computing
    /// `-a` and then `(-a) / b`: the quotient `q` is witnessed as `-a * b^-1`,
    /// range checked, and constrained by `q * b + a = 0 mod p`. When the values
    /// of `a` and `b` are known and `b` is not zero, the quotient's value is
    /// known and its integer is the canonical one, below `p`.
    fn neg_divide(
        &mut self,
        layouter: &mut Self::Layouter,
        a: &Self::FieldPoint,
        b: &Self::FieldPoint,
    ) -> (r: Result<Self::FieldPoint, Error>)
        ensures
            r matches Ok(q) ==> (Self::point_value(&q) * Self::point_value(b) + Self::point_value(a))
                % (Self::FieldType::modulus() as int) == 0,
            r matches Ok(q) ==> Self::in_range(&q),
            r matches Ok(q) ==> (Self::is_assigned(a) && Self::is_assigned(b)
                && Self::point_value(b) % (Self::FieldType::modulus() as int) != 0 ==> Self::is_assigned(
                &q,
            ) && 0 <= Self::point_value(&q) < Self::FieldType::modulus()),
            final(self).loaded_witnesses().len() == old(self).loaded_witnesses().len() + 1,
            final(self).loaded_witnesses().drop_last() == old(self).loaded_witnesses(),
            match final(self).loaded_witnesses().last() {
                Some(w) => Self::is_assigned(a) && Self::is_assigned(b) && Self::point_value(b) % (
                Self::FieldType::modulus() as int) != 0 && w < Self::FieldType::modulus() && (w
                    * Self::point_value(b) + Self::point_value(a)) % (Self::FieldType::modulus() as int)
                    == 0,
                None => !(Self::is_assigned(a) && Self::is_assigned(b) && Self::point_value(b) % (
                Self::FieldType::modulus() as int) != 0),
            },
    {
        let a_val = Self::get_assigned_value(a);
        let b_val = Self::get_assigned_value(b);
        let quot_val = neg_quotient_value(a_val, b_val);
        proof {
            if quot_val is Some {
                lemma_neg_constraint_of_residues(
                    quot_val->0.value() as int,
                    Self::point_value(a),
                    Self::point_value(b),
                    Self::FieldType::modulus() as int,
                );
            }
        }

        let quot = self.load_private(layouter, Self::fe_to_witness(&quot_val))?;
        self.range_check(layouter, &quot)?;

        // constrain quot * b + a = 0 mod p
        let quot_b = self.mul_no_carry(layouter, &quot, b)?;
        let quot_constraint = self.add_no_carry(layouter, &quot_b, a)?;
        self.check_carry_mod_to_zero(layouter, &quot_constraint)?;

        Ok(quot)
    }
}

/// Chips that can select between two points by an assigned bit.
pub trait Selectable<F> {
    type Point;
    type Layouter;
    type Cell;

    fn select(
        &mut self,
        layouter: &mut Self::Layouter,
        a: &Self::Point,
        b: &Self::Point,
        sel: &Self::Cell,
    ) -> Result<Self::Point, Error>;

    fn inner_product(
        &mut self,
        layouter: &mut Self::Layouter,
        a: &Vec<Self::Point>,
        coeffs: &Vec<Self::Cell>,
    ) -> Result<Self::Point, Error>;
}

/// Common functionality of the prime-field chips.
pub trait PrimeFieldChip<F>: FieldChip<F> {
    type Config;

    fn construct(config: Self::Config, using_simple_floor_planner: bool) -> Self;
}

/// Builds and reads an element of the degree-`DEGREE` extension of `Fp` from
/// and to its coefficients.
pub trait FieldExtConstructor<Fp, const DEGREE: usize>: Sized {
    /// The coefficients of the element over `Fp`.
    ///
    /// An implementation defines it for its own elements; a verified one must.
    /// By default an element has none.
    open spec fn coefficients(&self) -> Seq<Fp> {
        Seq::empty()
    }

    /// The element with coefficients `c`.
    fn new(c: [Fp; DEGREE]) -> (r: Self)
        ensures
            r.coefficients() == c@,
    ;

    /// The coefficients of the element, so that `coeffs(new(c))` is `c`.
    fn coeffs(&self) -> (r: Vec<Fp>)
        ensures
            r@ == self.coefficients(),
    ;
}

} // verus!
