# halo2_ecc

Field arithmetic for elliptic-curve circuits over halo2, verified with Verus.

- `src/fields/` — the `FieldChip` trait of the finite-field chips, whose
  provided operations (`mul`, `divide`, `neg_divide`) are proved to constrain
  what they claim; the witness computations of division over any
  `FieldArith` field; `FqPoint`, points of extension fields; and the laws that
  relate the operations (`laws.rs`).
- `src/bn254.rs` — the BN254 base field, with its arithmetic done by
  halo2curves.
- `src/usage.rs` — the summary of the columns a synthesis used, and the
  column counts that would hold it.
- `src/circuits.rs` — the witness data of the BN254 test circuits.
- `app/` — reading the circuits' configuration files and printing reports.
