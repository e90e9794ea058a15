//! The summary of how much of a circuit's columns a synthesis used, and how
//! many columns of each kind would hold it.
use vstd::arithmetic::div_mod::*;
use vstd::arithmetic::mul::*;
use vstd::arithmetic::power2::*;
use vstd::bits::*;
use vstd::prelude::*;

verus! {

/// The sum of the numbers in `s`.
pub open spec fn seq_sum(s: Seq<u64>) -> int
    decreases s.len(),
{
    if s.len() == 0 {
        0
    } else {
        seq_sum(s.drop_last()) + s.last()
    }
}

/// A prefix never sums to more than the whole sequence.
proof fn lemma_prefix_sum_le(s: Seq<u64>, i: int)
    requires
        0 <= i <= s.len(),
    ensures
        0 <= seq_sum(s.take(i)) <= seq_sum(s),
    decreases s.len(),
{
    if s.len() > 0 {
        if i == s.len() {
            assert(s.take(i) =~= s);
            lemma_prefix_sum_le(s.drop_last(), i - 1);
            assert(s.drop_last().take(i - 1) =~= s.drop_last());
        } else {
            lemma_prefix_sum_le(s.drop_last(), i);
            assert(s.drop_last().take(i) =~= s.take(i));
        }
    }
}

/// The sum of a sequence of numbers, where it fits in a `u64`.
fn sum_rows(rows: &Vec<u64>) -> (r: u64)
    requires
        seq_sum(rows@) <= u64::MAX,
    ensures
        r == seq_sum(rows@),
{
    let mut total: u64 = 0;
    let mut i: usize = 0;
    while i < rows.len()
        invariant
            i <= rows.len(),
            seq_sum(rows@) <= u64::MAX,
            total == seq_sum(rows@.take(i as int)),
        decreases rows.len() - i,
    {
        proof {
            assert(rows@.take(i + 1).drop_last() =~= rows@.take(i as int));
            lemma_prefix_sum_le(rows@, i + 1);
        }
        total = total + rows[i];
        i = i + 1;
    }
    proof {
        assert(rows@.take(rows.len() as int) =~= rows@);
    }
    total
}

/// `m` is the largest number of `a` and `b`, or 0 when both are empty.
pub open spec fn is_max_or_zero(m: u64, a: Seq<u64>, b: Seq<u64>) -> bool {
    &&& forall|i: int| 0 <= i < a.len() ==> a[i] <= m
    &&& forall|i: int| 0 <= i < b.len() ==> b[i] <= m
    &&& (m == 0 || (exists|i: int| 0 <= i < a.len() && a[i] == m) || (exists|i: int|
        0 <= i < b.len() && b[i] == m))
}

/// `m` is the smallest number of `a` and `b`, or `u64::MAX` when both are empty.
pub open spec fn is_min_or_max_value(m: u64, a: Seq<u64>, b: Seq<u64>) -> bool {
    &&& forall|i: int| 0 <= i < a.len() ==> m <= a[i]
    &&& forall|i: int| 0 <= i < b.len() ==> m <= b[i]
    &&& (m == u64::MAX || (exists|i: int| 0 <= i < a.len() && a[i] == m) || (exists|i: int|
        0 <= i < b.len() && b[i] == m))
}

/// The largest number of `rows`, or `floor` when it is larger than all of them.
fn max_from(rows: &Vec<u64>, floor: u64) -> (r: u64)
    ensures
        floor <= r,
        forall|i: int| 0 <= i < rows.len() ==> rows[i] <= r,
        r == floor || exists|i: int| 0 <= i < rows.len() && rows[i] == r,
{
    let mut m: u64 = floor;
    let mut i: usize = 0;
    while i < rows.len()
        invariant
            i <= rows.len(),
            floor <= m,
            forall|j: int| 0 <= j < i ==> rows[j] <= m,
            m == floor || exists|j: int| 0 <= j < i && rows[j] == m,
        decreases rows.len() - i,
    {
        if rows[i] > m {
            m = rows[i];
        }
        i = i + 1;
    }
    m
}

/// The smallest number of `rows`, or `ceiling` when it is smaller than all of them.
fn min_from(rows: &Vec<u64>, ceiling: u64) -> (r: u64)
    ensures
        r <= ceiling,
        forall|i: int| 0 <= i < rows.len() ==> r <= rows[i],
        r == ceiling || exists|i: int| 0 <= i < rows.len() && rows[i] == r,
{
    let mut m: u64 = ceiling;
    let mut i: usize = 0;
    while i < rows.len()
        invariant
            i <= rows.len(),
            m <= ceiling,
            forall|j: int| 0 <= j < i ==> m <= rows[j],
            m == ceiling || exists|j: int| 0 <= j < i && rows[j] == m,
        decreases rows.len() - i,
    {
        if rows[i] < m {
            m = rows[i];
        }
        i = i + 1;
    }
    m
}

/// The number of columns of `2^degree` rows each that hold `cells` cells:
/// the least `c` with `c * 2^degree >= cells`.
pub fn columns_needed(cells: u64, degree: u64) -> (r: u64)
    requires
        degree < 64,
        cells + pow2(degree as nat) <= u64::MAX,
    ensures
        r * pow2(degree as nat) >= cells,
        r * pow2(degree as nat) < cells + pow2(degree as nat),
{
    proof {
        lemma_u64_pow2_no_overflow(degree as nat);
        lemma_u64_shl_is_mul(1, degree);
    }
    let rows: u64 = 1u64 << degree;
    let r: u64 = (cells + rows - 1) / rows;
    proof {
        let n: int = cells + rows - 1;
        lemma_fundamental_div_mod(n, rows as int);
        lemma_mod_bound(n, rows as int);
        lemma_mul_is_commutative(r as int, rows as int);
    }
    r
}

/// What a synthesis used of the circuit's columns, and how many columns of
/// each kind would hold it.
pub struct UsageReport {
    /// The most rows that an advice column used.
    pub max_advice_rows: u64,
    /// The fewest rows that an advice column used.
    pub min_advice_rows: u64,
    /// The advice cells used in all.
    pub total_cells: u64,
    /// The cells copied to the special lookup columns.
    pub lookup_cells: u64,
    /// The most rows that a fixed column used.
    pub fixed_rows: u64,
    /// The advice columns that would hold all advice cells.
    pub suggested_advice_columns: u64,
    /// The lookup columns that would hold all lookup cells.
    pub suggested_lookup_columns: u64,
    /// The fixed columns that would hold all fixed cells.
    pub suggested_fixed_columns: u64,
}

/// Summarises the rows that each advice column used (`advice_rows` for the
/// vertical gate's columns, `horizontal_advice_rows` for the columns of a
/// horizontal gate, whose rows hold four cells each), the cells copied to the
/// lookup columns, the rows of the fixed columns and the fixed cells in all.
/// The suggested column counts assume columns of `2^(lookup_bits + 1)` rows.
pub fn usage_report(
    advice_rows: &Vec<u64>,
    horizontal_advice_rows: &Vec<u64>,
    lookup_cells: u64,
    fixed_rows: u64,
    total_fixed: u64,
    lookup_bits: u64,
) -> (r: UsageReport)
    requires
        lookup_bits < 63,
        seq_sum(advice_rows@) + 4 * seq_sum(horizontal_advice_rows@) + pow2(
            (lookup_bits + 1) as nat,
        ) <= u64::MAX,
        lookup_cells + pow2((lookup_bits + 1) as nat) <= u64::MAX,
        total_fixed + pow2((lookup_bits + 1) as nat) <= u64::MAX,
    ensures
        is_max_or_zero(r.max_advice_rows, advice_rows@, horizontal_advice_rows@),
        is_min_or_max_value(r.min_advice_rows, advice_rows@, horizontal_advice_rows@),
        r.total_cells == seq_sum(advice_rows@) + 4 * seq_sum(horizontal_advice_rows@),
        r.lookup_cells == lookup_cells,
        r.fixed_rows == fixed_rows,
        r.suggested_advice_columns * pow2((lookup_bits + 1) as nat) >= r.total_cells,
        r.suggested_advice_columns * pow2((lookup_bits + 1) as nat) < r.total_cells + pow2(
            (lookup_bits + 1) as nat,
        ),
        r.suggested_lookup_columns * pow2((lookup_bits + 1) as nat) >= lookup_cells,
        r.suggested_lookup_columns * pow2((lookup_bits + 1) as nat) < lookup_cells + pow2(
            (lookup_bits + 1) as nat,
        ),
        r.suggested_fixed_columns * pow2((lookup_bits + 1) as nat) >= total_fixed,
        r.suggested_fixed_columns * pow2((lookup_bits + 1) as nat) < total_fixed + pow2(
            (lookup_bits + 1) as nat,
        ),
{
    proof {
        lemma_pow2_pos((lookup_bits + 1) as nat);
        lemma_prefix_sum_le(advice_rows@, 0);
        lemma_prefix_sum_le(horizontal_advice_rows@, 0);
    }
    let max_vertical: u64 = max_from(advice_rows, 0);
    let max_advice_rows: u64 = max_from(horizontal_advice_rows, max_vertical);
    let min_vertical: u64 = min_from(advice_rows, u64::MAX);
    let min_advice_rows: u64 = min_from(horizontal_advice_rows, min_vertical);
    let total_cells: u64 = sum_rows(advice_rows) + sum_rows(horizontal_advice_rows) * 4;
    let degree: u64 = lookup_bits + 1;
    UsageReport {
        max_advice_rows,
        min_advice_rows,
        total_cells,
        lookup_cells,
        fixed_rows,
        suggested_advice_columns: columns_needed(total_cells, degree),
        suggested_lookup_columns: columns_needed(lookup_cells, degree),
        suggested_fixed_columns: columns_needed(total_fixed, degree),
    }
}

} // verus!
