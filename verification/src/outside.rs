//! Types of the halo2 proving system that cross the library's signatures.
use vstd::prelude::*;

verus! {

/// The error type of halo2's constraint-system synthesis, carried through unchanged.
#[verifier::external_type_specification]
#[verifier::external_body]
pub struct ExPlonkError(halo2_proofs::plonk::Error);

} // verus!
