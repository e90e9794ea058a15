//! The witness data of the BN254 test circuits: a multi-scalar multiplication
//! over a batch of bases and scalars, and an optimal ate pairing of two points.
//! A witness is `None` while it is unknown, as when the proving key is made.
use vstd::prelude::*;

verus! {

/// `batch_size` unknown witnesses.
pub fn unknown_witnesses<T>(batch_size: usize) -> (r: Vec<Option<T>>)
    ensures
        r.len() == batch_size,
        forall|i: int| 0 <= i < batch_size ==> r[i] is None,
{
    let mut v: Vec<Option<T>> = Vec::new();
    let mut i: usize = 0;
    while i < batch_size
        invariant
            i <= batch_size,
            v.len() == i,
            forall|j: int| 0 <= j < i ==> v[j] is None,
        decreases batch_size - i,
    {
        v.push(None);
        i = i + 1;
    }
    v
}

/// The inputs of the multi-scalar multiplication circuit: the bases `B` and
/// the scalars `S` of a batch.
pub struct MSMCircuit<B, S> {
    pub bases: Vec<Option<B>>,
    pub scalars: Vec<Option<S>>,
    pub batch_size: usize,
}

impl<B, S> MSMCircuit<B, S> {
    /// The same circuit with every witness unknown.
    pub fn without_witnesses(&self) -> (r: Self)
        ensures
            r.batch_size == self.batch_size,
            r.bases.len() == self.batch_size,
            r.scalars.len() == self.batch_size,
            forall|i: int| 0 <= i < r.batch_size ==> r.bases[i] is None && r.scalars[i] is None,
    {
        MSMCircuit {
            bases: unknown_witnesses(self.batch_size),
            scalars: unknown_witnesses(self.batch_size),
            batch_size: self.batch_size,
        }
    }

    /// Whether the circuit holds one base and one scalar for each of the
    /// `batch_size` slots that its configuration lays out.
    pub fn fits_batch(&self, batch_size: usize) -> (r: bool)
        ensures
            r == (batch_size == self.scalars.len() && batch_size == self.bases.len()),
    {
        batch_size == self.scalars.len() && batch_size == self.bases.len()
    }
}

impl<B, S> Default for MSMCircuit<B, S> {
    /// A batch of ten unknown bases and scalars.
    fn default() -> (r: Self)
        ensures
            r.batch_size == 10,
            r.bases.len() == 10,
            r.scalars.len() == 10,
            forall|i: int| 0 <= i < 10 ==> r.bases[i] is None && r.scalars[i] is None,
    {
        MSMCircuit { bases: unknown_witnesses(10), scalars: unknown_witnesses(10), batch_size: 10 }
    }
}

/// The inputs of the pairing circuit: a point `P` of `G1` and a point `Q` of `G2`.
#[allow(non_snake_case)]
pub struct PairingCircuit<G1, G2> {
    pub P: Option<G1>,
    pub Q: Option<G2>,
}

impl<G1, G2> PairingCircuit<G1, G2> {
    /// The same circuit with both points unknown.
    pub fn without_witnesses(&self) -> (r: Self)
        ensures
            r.P is None,
            r.Q is None,
    {
        Self::default()
    }
}

impl<G1, G2> Default for PairingCircuit<G1, G2> {
    /// Both points unknown.
    fn default() -> (r: Self)
        ensures
            r.P is None,
            r.Q is None,
    {
        PairingCircuit { P: None, Q: None }
    }
}

} // verus!
