//! The base field `F_q` of the BN254 curve, with its arithmetic done by halo2curves.
use crate::fields::arith::FieldArith;
use ff::Field;
use vstd::arithmetic::div_mod::*;
use vstd::prelude::*;

verus! {

/// The integer that little-endian bytes stand for.
pub open spec fn le_bytes_value(s: Seq<u8>) -> nat
    decreases s.len(),
{
    if s.len() == 0 {
        0
    } else {
        s[0] as nat + 256 * le_bytes_value(s.drop_first())
    }
}

/// The characteristic `q` of the BN254 base field.
pub open spec fn base_modulus() -> nat {
    21888242871839275222246405745257275088696311157297823662689037894645226208583nat
}

/// halo2curves' `Fq::from_bytes`, which reads little-endian bytes and fails
/// unless they are the canonical encoding of an element (an integer below `q`);
/// the element read back by `Fq::to_bytes` is then the same bytes.
#[verifier::external_body]
fn fq_from_bytes(bytes: [u8; 32]) -> (r: Option<[u8; 32]>)
    ensures
        r is Some <==> le_bytes_value(bytes@) < base_modulus(),
        r matches Some(b) ==> b@ == bytes@,
{
    match Option::<halo2curves::bn256::Fq>::from(halo2curves::bn256::Fq::from_bytes(&bytes)) {
        Some(x) => Some(x.to_bytes()),
        None => None,
    }
}

/// halo2curves' `From<u64> for Fq`: the element whose canonical encoding stands for `x`.
#[verifier::external_body]
fn fq_from_u64(x: u64) -> (r: [u8; 32])
    ensures
        le_bytes_value(r@) == x,
{
    halo2curves::bn256::Fq::from(x).to_bytes()
}

/// halo2curves' field multiplication of `Fq`: the canonical encoding of `a * b mod q`.
#[verifier::external_body]
fn fq_mul(a: [u8; 32], b: [u8; 32]) -> (r: [u8; 32])
    requires
        le_bytes_value(a@) < base_modulus(),
        le_bytes_value(b@) < base_modulus(),
    ensures
        le_bytes_value(r@) == (le_bytes_value(a@) * le_bytes_value(b@)) % base_modulus(),
{
    let x = halo2curves::bn256::Fq::from_bytes(&a).unwrap();
    let y = halo2curves::bn256::Fq::from_bytes(&b).unwrap();
    (x * y).to_bytes()
}

/// halo2curves' field negation of `Fq`: the canonical encoding of `-a mod q`.
#[verifier::external_body]
fn fq_neg(a: [u8; 32]) -> (r: [u8; 32])
    requires
        le_bytes_value(a@) < base_modulus(),
    ensures
        le_bytes_value(r@) == (base_modulus() - le_bytes_value(a@)) % (base_modulus() as int),
{
    (-halo2curves::bn256::Fq::from_bytes(&a).unwrap()).to_bytes()
}

/// halo2curves' `Field::invert` on `Fq`, which fails exactly on zero and
/// otherwise gives the canonical encoding of the inverse modulo `q`.
#[verifier::external_body]
fn fq_invert(a: [u8; 32]) -> (r: Option<[u8; 32]>)
    requires
        le_bytes_value(a@) < base_modulus(),
    ensures
        r is None <==> le_bytes_value(a@) == 0,
        r matches Some(i) ==> le_bytes_value(i@) < base_modulus() && (le_bytes_value(i@)
            * le_bytes_value(a@)) % base_modulus() == 1,
{
    let x = halo2curves::bn256::Fq::from_bytes(&a).unwrap();
    match Option::<halo2curves::bn256::Fq>::from(x.invert()) {
        Some(i) => Some(i.to_bytes()),
        None => None,
    }
}

/// An element of the BN254 base field `F_q`, held as its canonical
/// little-endian encoding.
#[derive(Clone, Copy, Debug)]
pub struct Fq {
    bytes: [u8; 32],
}

impl Fq {
    #[verifier::type_invariant]
    spec fn canonical(self) -> bool {
        le_bytes_value(self.bytes@) < base_modulus()
    }

    /// Reads the element that canonical little-endian bytes encode; `None`
    /// when the bytes stand for an integer that is not below `q`.
    pub fn from_bytes(bytes: [u8; 32]) -> (r: Option<Fq>)
        ensures
            r is Some <==> le_bytes_value(bytes@) < base_modulus(),
            r matches Some(x) ==> x.value() == le_bytes_value(bytes@),
    {
        match fq_from_bytes(bytes) {
            Some(b) => {
                proof {
                    lemma_small_mod(le_bytes_value(b@), base_modulus());
                }
                Some(Fq { bytes: b })
            },
            None => None,
        }
    }

    /// The element that stands for the integer `x`.
    pub fn from_u64(x: u64) -> (r: Fq)
        ensures
            r.value() == x,
    {
        let b = fq_from_u64(x);
        proof {
            lemma_small_mod(le_bytes_value(b@), base_modulus());
        }
        Fq { bytes: b }
    }

    /// The canonical little-endian encoding of the element.
    pub fn to_bytes(&self) -> (r: [u8; 32])
        ensures
            le_bytes_value(r@) == self.value(),
    {
        proof {
            use_type_invariant(self);
            lemma_small_mod(le_bytes_value(self.bytes@), base_modulus());
        }
        self.bytes
    }
}

impl FieldArith for Fq {
    open spec fn modulus() -> nat {
        base_modulus()
    }

    closed spec fn value(&self) -> nat {
        le_bytes_value(self.bytes@) % base_modulus()
    }

    proof fn lemma_canonical(x: &Self) {
        lemma_mod_bound(le_bytes_value(x.bytes@) as int, base_modulus() as int);
    }

    fn invert(&self) -> (r: Option<Self>) {
        proof {
            use_type_invariant(self);
            lemma_small_mod(le_bytes_value(self.bytes@), base_modulus());
        }
        match fq_invert(self.bytes) {
            Some(i) => {
                proof {
                    lemma_small_mod(le_bytes_value(i@), base_modulus());
                }
                Some(Fq { bytes: i })
            },
            None => None,
        }
    }

    fn mul(&self, rhs: &Self) -> (r: Self) {
        proof {
            use_type_invariant(self);
            use_type_invariant(rhs);
            lemma_small_mod(le_bytes_value(self.bytes@), base_modulus());
            lemma_small_mod(le_bytes_value(rhs.bytes@), base_modulus());
        }
        let b = fq_mul(self.bytes, rhs.bytes);
        proof {
            lemma_mod_bound(
                (le_bytes_value(self.bytes@) * le_bytes_value(rhs.bytes@)) as int,
                base_modulus() as int,
            );
            lemma_small_mod(le_bytes_value(b@), base_modulus());
        }
        Fq { bytes: b }
    }

    fn neg(&self) -> (r: Self) {
        proof {
            use_type_invariant(self);
            lemma_small_mod(le_bytes_value(self.bytes@), base_modulus());
        }
        let b = fq_neg(self.bytes);
        proof {
            lemma_mod_bound(
                base_modulus() - le_bytes_value(self.bytes@),
                base_modulus() as int,
            );
            lemma_small_mod(le_bytes_value(b@), base_modulus());
        }
        Fq { bytes: b }
    }
}

} // verus!
