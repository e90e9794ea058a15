use halo2_ecc::bn254::Fq;
use halo2_ecc::fields::arith::{neg_quotient_value, quotient_value, FieldArith};
use halo2_ecc::fields::{FieldChip, FqPoint};
use halo2_proofs::plonk::Error;
use num_bigint::{BigInt, Sign};

fn modulus() -> BigInt {
    BigInt::parse_bytes(
        b"21888242871839275222246405745257275088696311157297823662689037894645226208583",
        10,
    )
    .unwrap()
}

fn to_int(x: &Fq) -> BigInt {
    BigInt::from_bytes_le(Sign::Plus, &x.to_bytes())
}

fn reduce(x: &BigInt) -> BigInt {
    let m = modulus();
    ((x % &m) + &m) % &m
}

fn from_int(x: &BigInt) -> Fq {
    let (_, mut bytes) = reduce(x).to_bytes_le();
    bytes.resize(32, 0);
    let arr: [u8; 32] = bytes.try_into().unwrap();
    Fq::from_bytes(arr).unwrap()
}

#[test]
fn construct_keeps_coefficients() {
    let p = FqPoint::construct(vec![1u64, 2, 3], 3);
    assert_eq!(p.coeffs, vec![1, 2, 3]);
    assert_eq!(p.degree, 3);
}

#[test]
fn fq_from_u64_reads_back() {
    assert_eq!(to_int(&Fq::from_u64(12345)), BigInt::from(12345));
    assert_eq!(to_int(&Fq::from_u64(0)), BigInt::from(0));
}

#[test]
fn fq_from_bytes_rejects_non_canonical() {
    let (_, mut bytes) = modulus().to_bytes_le();
    bytes.resize(32, 0);
    let arr: [u8; 32] = bytes.clone().try_into().unwrap();
    assert!(Fq::from_bytes(arr).is_none());
    let below = modulus() - 1;
    let x = from_int(&below);
    assert_eq!(to_int(&x), below);
    assert!(Fq::from_bytes([0xff; 32]).is_none());
}

#[test]
fn fq_mul_is_product_mod_q() {
    let x = Fq::from_u64(6).mul(&Fq::from_u64(7));
    assert_eq!(to_int(&x), BigInt::from(42));
    let big = modulus() - 1;
    let y = from_int(&big).mul(&from_int(&big));
    assert_eq!(to_int(&y), BigInt::from(1));
}

#[test]
fn fq_neg_is_q_minus_value() {
    assert_eq!(to_int(&Fq::from_u64(1).neg()), modulus() - 1);
    assert_eq!(to_int(&Fq::from_u64(0).neg()), BigInt::from(0));
}

#[test]
fn fq_invert() {
    assert!(Fq::from_u64(0).invert().is_none());
    let i = Fq::from_u64(2).invert().unwrap();
    assert_eq!(to_int(&i), (modulus() + 1) / 2);
    assert_eq!(to_int(&i.mul(&Fq::from_u64(2))), BigInt::from(1));
}

#[test]
fn quotient_of_known_values() {
    let q = quotient_value(Some(Fq::from_u64(15)), Some(Fq::from_u64(5))).unwrap();
    assert_eq!(to_int(&q), BigInt::from(3));
    let h = quotient_value(Some(Fq::from_u64(1)), Some(Fq::from_u64(2))).unwrap();
    assert_eq!(to_int(&h), (modulus() + 1) / 2);
}

#[test]
fn quotient_unknown_when_input_unknown_or_divisor_zero() {
    assert!(quotient_value(Some(Fq::from_u64(15)), Some(Fq::from_u64(0))).is_none());
    assert!(quotient_value(None, Some(Fq::from_u64(5))).is_none());
    assert!(quotient_value(Some(Fq::from_u64(15)), None).is_none());
    assert!(neg_quotient_value(Some(Fq::from_u64(15)), Some(Fq::from_u64(0))).is_none());
    assert!(neg_quotient_value(None, Some(Fq::from_u64(5))).is_none());
}

#[test]
fn neg_quotient_of_known_values() {
    let q = neg_quotient_value(Some(Fq::from_u64(15)), Some(Fq::from_u64(5))).unwrap();
    assert_eq!(to_int(&q), modulus() - 3);
}

/// The value a prover knows of a point of integer `v`, if its inputs' values are known.
fn known(v: &BigInt, inputs_known: bool) -> Option<Fq> {
    if inputs_known {
        Some(from_int(v))
    } else {
        None
    }
}

/// A chip that keeps points as plain integers and checks its constraints
/// directly, recording the operations it is asked for.
struct IntegerChip {
    log: Vec<&'static str>,
    fail_range_check: bool,
    range_chip: (),
}

impl IntegerChip {
    fn new() -> Self {
        IntegerChip { log: Vec::new(), fail_range_check: false, range_chip: () }
    }
}

impl FieldChip<u64> for IntegerChip {
    type ConstantType = BigInt;
    type WitnessType = Option<BigInt>;
    type FieldPoint = (BigInt, Option<Fq>);
    type FieldType = Fq;
    type RangeChip = ();
    type Layouter = ();
    type Cell = bool;

    fn range(&mut self) -> &mut () {
        &mut self.range_chip
    }

    fn get_assigned_value(x: &Self::FieldPoint) -> Option<Fq> {
        x.1.as_ref().map(|v| from_int(&to_int(v)))
    }

    fn fe_to_witness(x: &Option<Fq>) -> Option<BigInt> {
        x.as_ref().map(to_int)
    }

    fn load_private(&mut self, _: &mut (), coeffs: Option<BigInt>) -> Result<Self::FieldPoint, Error> {
        self.log.push("load_private");
        let v = coeffs.ok_or(Error::Synthesis)?;
        Ok((v.clone(), Some(from_int(&v))))
    }

    fn load_constant(&mut self, _: &mut (), c: BigInt) -> Result<Self::FieldPoint, Error> {
        self.log.push("load_constant");
        Ok((c.clone(), Some(from_int(&c))))
    }

    fn add_no_carry(&mut self, _: &mut (), a: &Self::FieldPoint, b: &Self::FieldPoint) -> Result<Self::FieldPoint, Error> {
        self.log.push("add_no_carry");
        let v = &a.0 + &b.0;
        Ok((v.clone(), known(&v, a.1.is_some() && b.1.is_some())))
    }

    fn sub_no_carry(&mut self, _: &mut (), a: &Self::FieldPoint, b: &Self::FieldPoint) -> Result<Self::FieldPoint, Error> {
        self.log.push("sub_no_carry");
        let v = &a.0 - &b.0;
        Ok((v.clone(), known(&v, a.1.is_some() && b.1.is_some())))
    }

    fn negate(&mut self, _: &mut (), a: &Self::FieldPoint) -> Result<Self::FieldPoint, Error> {
        self.log.push("negate");
        let v = reduce(&-&a.0);
        Ok((v.clone(), known(&v, a.1.is_some())))
    }

    fn scalar_mul_no_carry(&mut self, _: &mut (), a: &Self::FieldPoint, b: u64) -> Result<Self::FieldPoint, Error> {
        self.log.push("scalar_mul_no_carry");
        let v = &a.0 * BigInt::from(b);
        Ok((v.clone(), known(&v, a.1.is_some())))
    }

    fn mul_no_carry(&mut self, _: &mut (), a: &Self::FieldPoint, b: &Self::FieldPoint) -> Result<Self::FieldPoint, Error> {
        self.log.push("mul_no_carry");
        let v = &a.0 * &b.0;
        Ok((v.clone(), known(&v, a.1.is_some() && b.1.is_some())))
    }

    fn check_carry_mod_to_zero(&mut self, _: &mut (), a: &Self::FieldPoint) -> Result<(), Error> {
        self.log.push("check_carry_mod_to_zero");
        if reduce(&a.0) == BigInt::from(0) {
            Ok(())
        } else {
            Err(Error::Synthesis)
        }
    }

    fn carry_mod(&mut self, _: &mut (), a: &Self::FieldPoint) -> Result<Self::FieldPoint, Error> {
        self.log.push("carry_mod");
        let v = reduce(&a.0);
        Ok((v.clone(), known(&v, a.1.is_some())))
    }

    fn range_check(&mut self, _: &mut (), _a: &Self::FieldPoint) -> Result<(), Error> {
        self.log.push("range_check");
        if self.fail_range_check {
            Err(Error::Synthesis)
        } else {
            Ok(())
        }
    }

    fn is_zero(&mut self, _: &mut (), a: &Self::FieldPoint) -> Result<bool, Error> {
        Ok(reduce(&a.0) == BigInt::from(0))
    }

    fn is_equal(&mut self, _: &mut (), a: &Self::FieldPoint, b: &Self::FieldPoint) -> Result<bool, Error> {
        Ok(reduce(&(&a.0 - &b.0)) == BigInt::from(0))
    }
}

fn point(v: u64) -> (BigInt, Option<Fq>) {
    (BigInt::from(v), Some(Fq::from_u64(v)))
}

#[test]
fn chip_mul_reduces_product() {
    let mut chip = IntegerChip::new();
    let big: BigInt = modulus() - 1;
    let a = (big.clone(), Some(from_int(&big)));
    let r = chip.mul(&mut (), &a, &a).unwrap();
    assert_eq!(r.0, BigInt::from(1));
    assert_eq!(chip.log, vec!["mul_no_carry", "carry_mod"]);
}

#[test]
fn chip_divide_constrains_quotient() {
    let mut chip = IntegerChip::new();
    let q = chip.divide(&mut (), &point(15), &point(5)).unwrap();
    assert_eq!(q.0, BigInt::from(3));
    assert_eq!(
        chip.log,
        vec!["load_private", "range_check", "mul_no_carry", "sub_no_carry", "check_carry_mod_to_zero"]
    );
    let h = chip.divide(&mut (), &point(1), &point(2)).unwrap();
    assert_eq!(h.0, (modulus() + 1) / 2);
}

#[test]
fn chip_neg_divide_constrains_negated_quotient() {
    let mut chip = IntegerChip::new();
    let q = chip.neg_divide(&mut (), &point(15), &point(5)).unwrap();
    assert_eq!(q.0, modulus() - 3);
    assert_eq!(
        chip.log,
        vec!["load_private", "range_check", "mul_no_carry", "add_no_carry", "check_carry_mod_to_zero"]
    );
}

#[test]
fn chip_divide_by_zero_has_no_witness() {
    let mut chip = IntegerChip::new();
    assert!(chip.divide(&mut (), &point(15), &point(0)).is_err());
    assert_eq!(chip.log, vec!["load_private"]);
}

#[test]
fn chip_divide_stops_at_first_error() {
    let mut chip = IntegerChip::new();
    chip.fail_range_check = true;
    assert!(chip.divide(&mut (), &point(15), &point(5)).is_err());
    assert_eq!(chip.log, vec!["load_private", "range_check"]);
}

#[test]
fn law_neg_divide_negates_divide_on_values() {
    let mut chip = IntegerChip::new();
    let q = chip.divide(&mut (), &point(7), &point(3)).unwrap();
    let nq = chip.neg_divide(&mut (), &point(7), &point(3)).unwrap();
    assert_eq!(reduce(&(q.0 + nq.0)), BigInt::from(0));
}

#[test]
fn law_divide_undoes_mul_on_values() {
    let mut chip = IntegerChip::new();
    let c = chip.mul(&mut (), &point(11), &point(9)).unwrap();
    let q = chip.divide(&mut (), &c, &point(9)).unwrap();
    assert_eq!(reduce(&q.0), BigInt::from(11));
}

#[test]
fn law_divide_constraint_fixes_quotient_on_values() {
    // 2 * b == 1 mod q for b = (q + 1) / 2: dividing 5 by 2 gives 5 * b.
    let mut chip = IntegerChip::new();
    let q = chip.divide(&mut (), &point(5), &point(2)).unwrap();
    let inv = (modulus() + 1) / 2;
    assert_eq!(reduce(&q.0), reduce(&(BigInt::from(5) * inv)));
}

#[test]
fn law_neg_divide_is_divide_of_negation_on_values() {
    let mut chip = IntegerChip::new();
    let a = point(8);
    let b = point(6);
    let na_raw = chip.negate(&mut (), &a).unwrap();
    let na = (na_raw.0.clone(), Some(from_int(&na_raw.0)));
    let q = chip.divide(&mut (), &na, &b).unwrap();
    let nq = chip.neg_divide(&mut (), &a, &b).unwrap();
    assert_eq!(reduce(&q.0), reduce(&nq.0));
}

#[test]
fn chip_values_read_back() {
    let mut chip = IntegerChip::new();
    let c = chip.mul(&mut (), &point(6), &point(7)).unwrap();
    let v = IntegerChip::get_assigned_value(&c).unwrap();
    assert_eq!(to_int(&v), BigInt::from(42));
    let q = chip.divide(&mut (), &point(6), &point(3)).unwrap();
    assert_eq!(to_int(&IntegerChip::get_assigned_value(&q).unwrap()), BigInt::from(2));
    let nq = chip.neg_divide(&mut (), &point(6), &point(3)).unwrap();
    assert_eq!(to_int(&IntegerChip::get_assigned_value(&nq).unwrap()), modulus() - 2);
}
