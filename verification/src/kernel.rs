//! The exact part of the spanwise influence kernels.
//!
//! Station `m` sees station `n` through the bracket
//! `1/(d + 1/2) - 1/(d - 1/2)` with `d = n - m` (the circulation tensor),
//! or its negation (the downwash kernel). Doubling the half-integer
//! denominators turns the bracket into a difference of integer fractions,
//! `2/(2d + 1) - 2/(2d - 1)`, so its exact value is the integer fraction
//! `-4 / (4*d*d - 1)`. This module computes those fractions, assembles them
//! for a whole lattice, and proves the structural facts the model rests on:
//! the bracket is defined for every station pair, the downwash bracket is
//! the negation of the circulation bracket, and both are invariant under
//! mirroring the lattice about the wing centreline.

use vstd::prelude::*;

verus! {

/// Kronecker delta on a pair of station indices.
pub open spec fn delta(m: int, n: int) -> int {
    if m == n {
        1
    } else {
        0
    }
}

/// Signed station offset from row `m` to column `n`.
pub open spec fn offset(m: int, n: int) -> int {
    n - m
}

/// Common denominator of the coupling bracket at offset `d`: the product of
/// the doubled half-integer offsets `2d + 1` and `2d - 1`.
pub open spec fn bracket_den(d: int) -> int {
    (2 * d + 1) * (2 * d - 1)
}

/// Numerator of the circulation bracket `2/(2d + 1) - 2/(2d - 1)` over the
/// common denominator `bracket_den(d)`.
pub open spec fn circulation_bracket_num(d: int) -> int {
    2 * (2 * d - 1) - 2 * (2 * d + 1)
}

/// Numerator of the downwash bracket `-2/(2d + 1) + 2/(2d - 1)` over the
/// common denominator `bracket_den(d)`.
pub open spec fn downwash_bracket_num(d: int) -> int {
    2 * (2 * d + 1) - 2 * (2 * d - 1)
}

/// Closed forms of the coupling bracket: as a single fraction it is
/// `-4 / (4*d*d - 1)` in the circulation sense and `4 / (4*d*d - 1)` in the
/// downwash sense, and the denominator never vanishes.
pub proof fn lemma_bracket_closed_form(d: int)
    ensures
        circulation_bracket_num(d) == -4,
        downwash_bracket_num(d) == 4,
        bracket_den(d) == 4 * d * d - 1,
        bracket_den(d) != 0,
{
    assert((2 * d + 1) * (2 * d - 1) == 4 * d * d - 1) by (nonlinear_arith);
    assert(2 * d + 1 != 0);
    assert(2 * d - 1 != 0);
    assert((2 * d + 1) * (2 * d - 1) != 0) by (nonlinear_arith)
        requires
            2 * d + 1 != 0,
            2 * d - 1 != 0,
    ;
}

/// The bracket is well defined for every ordered pair of stations: neither
/// doubled half-integer offset, nor their product, can be zero, because an
/// even number never equals an odd one.
pub proof fn lemma_bracket_well_defined(d: int)
    ensures
        2 * d + 1 != 0,
        2 * d - 1 != 0,
        bracket_den(d) != 0,
{
    lemma_bracket_closed_form(d);
}

/// The downwash kernel opposes the circulation coupling: at every offset the
/// two brackets share a denominator and carry opposite numerators.
pub proof fn lemma_downwash_opposes_circulation(d: int)
    ensures
        downwash_bracket_num(d) == -circulation_bracket_num(d),
        bracket_den(d) != 0,
{
    lemma_bracket_closed_form(d);
}

/// Mirror symmetry of the kernels: reflecting both stations of a pair about
/// the centreline of a lattice of `count` stations negates the offset and
/// leaves the Kronecker delta and both brackets unchanged.
pub proof fn lemma_bracket_mirror(m: int, n: int, count: int)
    requires
        0 <= m < count,
        0 <= n < count,
    ensures
        offset(count - 1 - m, count - 1 - n) == -offset(m, n),
        circulation_bracket_num(offset(count - 1 - m, count - 1 - n)) == circulation_bracket_num(
            offset(m, n),
        ),
        downwash_bracket_num(offset(count - 1 - m, count - 1 - n)) == downwash_bracket_num(
            offset(m, n),
        ),
        bracket_den(offset(count - 1 - m, count - 1 - n)) == bracket_den(offset(m, n)),
        delta(count - 1 - m, count - 1 - n) == delta(m, n),
{
    let d = offset(m, n);
    lemma_bracket_closed_form(d);
    lemma_bracket_closed_form(-d);
    assert(4 * (-d) * (-d) == 4 * d * d) by (nonlinear_arith);
}

/// What it means for `t` to be the Kronecker delta table of a lattice of
/// `count` stations.
pub open spec fn delta_table(t: Seq<Vec<u64>>, count: int) -> bool {
    &&& t.len() == count
    &&& forall|m: int| 0 <= m < count ==> (#[trigger] t[m])@.len() == count
    &&& forall|m: int, n: int|
        0 <= m < count && 0 <= n < count ==> #[trigger] t[m]@[n] == delta(m, n)
}

/// What it means for `t` to be the circulation bracket table of a lattice
/// of `count` stations: entry `(m, n)` is the exact coupling fraction at
/// offset `n - m`, as (numerator, denominator).
pub open spec fn circulation_table(t: Seq<Vec<(i64, i64)>>, count: int) -> bool {
    &&& t.len() == count
    &&& forall|m: int| 0 <= m < count ==> (#[trigger] t[m])@.len() == count
    &&& forall|m: int, n: int|
        0 <= m < count && 0 <= n < count ==> (#[trigger] t[m]@[n]).0 == circulation_bracket_num(
            offset(m, n),
        ) && t[m]@[n].1 == bracket_den(offset(m, n))
}

/// What it means for `t` to be the downwash bracket table of a lattice of
/// `count` stations: entry `(m, n)` is the negated coupling fraction at
/// offset `n - m`, as (numerator, denominator).
pub open spec fn downwash_table(t: Seq<Vec<(i64, i64)>>, count: int) -> bool {
    &&& t.len() == count
    &&& forall|m: int| 0 <= m < count ==> (#[trigger] t[m])@.len() == count
    &&& forall|m: int, n: int|
        0 <= m < count && 0 <= n < count ==> (#[trigger] t[m]@[n]).0 == downwash_bracket_num(
            offset(m, n),
        ) && t[m]@[n].1 == bracket_den(offset(m, n))
}

/// Mirror law of the circulation tensor's exact part: in any circulation
/// bracket table, the entry at a station pair equals the entry at the pair
/// reflected about the wing centreline.
pub proof fn lemma_circulation_table_mirror(t: Seq<Vec<(i64, i64)>>, count: int, m: int, n: int)
    requires
        circulation_table(t, count),
        0 <= m < count,
        0 <= n < count,
    ensures
        t[m]@[n] == t[count - 1 - m]@[count - 1 - n],
{
    lemma_bracket_mirror(m, n, count);
}

/// Mirror law of the downwash kernel's exact part: in any downwash bracket
/// table, the entry at a station pair equals the entry at the pair
/// reflected about the wing centreline.
pub proof fn lemma_downwash_table_mirror(t: Seq<Vec<(i64, i64)>>, count: int, m: int, n: int)
    requires
        downwash_table(t, count),
        0 <= m < count,
        0 <= n < count,
    ensures
        t[m]@[n] == t[count - 1 - m]@[count - 1 - n],
{
    lemma_bracket_mirror(m, n, count);
}

/// Determinism of the kernel assembly: the table contract pins every
/// entry, so any two circulation bracket tables of the same lattice agree
/// entry by entry.
pub proof fn lemma_circulation_table_unique(
    a: Seq<Vec<(i64, i64)>>,
    b: Seq<Vec<(i64, i64)>>,
    count: int,
    m: int,
    n: int,
)
    requires
        circulation_table(a, count),
        circulation_table(b, count),
        0 <= m < count,
        0 <= n < count,
    ensures
        a[m]@[n] == b[m]@[n],
{
}

/// Kronecker delta entry, the local part of the circulation tensor.
pub fn kronecker(m: usize, n: usize) -> (r: u64)
    ensures
        r == delta(m as int, n as int),
{
    if m == n {
        1
    } else {
        0
    }
}

/// The circulation bracket at the station pair `(m, n)`, as the exact
/// fraction (numerator, denominator). The bound on the indices keeps the
/// denominator within a machine word.
pub fn circulation_bracket(m: usize, n: usize) -> (r: (i64, i64))
    requires
        m < 0x4000_0000,
        n < 0x4000_0000,
    ensures
        r.0 == circulation_bracket_num(offset(m as int, n as int)),
        r.1 == bracket_den(offset(m as int, n as int)),
        r.1 != 0,
{
    let d: i64 = (n as i64) - (m as i64);
    proof {
        assert(d * d < 0x1000_0000_0000_0000 && d * d >= 0 && 4 * (d * d) == 4 * d * d)
            by (nonlinear_arith)
            requires
                -0x4000_0000 < d < 0x4000_0000,
        ;
        lemma_bracket_closed_form(d as int);
    }
    let dd: i64 = d * d;
    let den: i64 = 4 * dd - 1;
    (-4, den)
}

/// The downwash bracket at the station pair `(m, n)`: the negation of the
/// circulation bracket, as the exact fraction (numerator, denominator).
pub fn downwash_bracket(m: usize, n: usize) -> (r: (i64, i64))
    requires
        m < 0x4000_0000,
        n < 0x4000_0000,
    ensures
        r.0 == downwash_bracket_num(offset(m as int, n as int)),
        r.1 == bracket_den(offset(m as int, n as int)),
        r.1 != 0,
{
    let d: i64 = (n as i64) - (m as i64);
    proof {
        assert(d * d < 0x1000_0000_0000_0000 && d * d >= 0 && 4 * (d * d) == 4 * d * d)
            by (nonlinear_arith)
            requires
                -0x4000_0000 < d < 0x4000_0000,
        ;
        lemma_bracket_closed_form(d as int);
    }
    let dd: i64 = d * d;
    let den: i64 = 4 * dd - 1;
    (4, den)
}

/// The full Kronecker delta of a lattice of `count` stations: the local
/// (row-equals-column) part of the circulation tensor before the `1/pi`
/// scaling.
pub fn kronecker_matrix(count: usize) -> (r: Vec<Vec<u64>>)
    ensures
        delta_table(r@, count as int),
{
    let mut rows: Vec<Vec<u64>> = Vec::new();
    let mut m: usize = 0;
    while m < count
        invariant
            m <= count,
            rows@.len() == m,
            forall|i: int| 0 <= i < m ==> (#[trigger] rows@[i])@.len() == count,
            forall|i: int, j: int|
                0 <= i < m && 0 <= j < count ==> #[trigger] rows@[i]@[j] == delta(i, j),
        decreases count - m,
    {
        let mut row: Vec<u64> = Vec::new();
        let mut n: usize = 0;
        while n < count
            invariant
                n <= count,
                m < count,
                row@.len() == n,
                forall|j: int| 0 <= j < n ==> #[trigger] row@[j] == delta(m as int, j),
            decreases count - n,
        {
            row.push(kronecker(m, n));
            n += 1;
        }
        rows.push(row);
        m += 1;
    }
    rows
}

/// The exact coupling fractions of the circulation tensor for a lattice of
/// `count` stations: entry `(m, n)` is the bracket at offset `n - m`, as
/// (numerator, denominator).
pub fn circulation_brackets(count: usize) -> (r: Vec<Vec<(i64, i64)>>)
    requires
        count <= 0x4000_0000,
    ensures
        circulation_table(r@, count as int),
{
    let mut rows: Vec<Vec<(i64, i64)>> = Vec::new();
    let mut m: usize = 0;
    while m < count
        invariant
            m <= count,
            count <= 0x4000_0000,
            rows@.len() == m,
            forall|i: int| 0 <= i < m ==> (#[trigger] rows@[i])@.len() == count,
            forall|i: int, j: int|
                0 <= i < m && 0 <= j < count ==> (#[trigger] rows@[i]@[j]).0
                    == circulation_bracket_num(offset(i, j)) && rows@[i]@[j].1 == bracket_den(
                    offset(i, j),
                ),
        decreases count - m,
    {
        let mut row: Vec<(i64, i64)> = Vec::new();
        let mut n: usize = 0;
        while n < count
            invariant
                n <= count,
                m < count,
                count <= 0x4000_0000,
                row@.len() == n,
                forall|j: int|
                    0 <= j < n ==> (#[trigger] row@[j]).0 == circulation_bracket_num(
                        offset(m as int, j),
                    ) && row@[j].1 == bracket_den(offset(m as int, j)),
            decreases count - n,
        {
            row.push(circulation_bracket(m, n));
            n += 1;
        }
        rows.push(row);
        m += 1;
    }
    rows
}

/// The exact coupling fractions of the downwash kernel for a lattice of
/// `count` stations: entry `(m, n)` is the negated bracket at offset
/// `n - m`, as (numerator, denominator).
pub fn downwash_brackets(count: usize) -> (r: Vec<Vec<(i64, i64)>>)
    requires
        count <= 0x4000_0000,
    ensures
        downwash_table(r@, count as int),
{
    let mut rows: Vec<Vec<(i64, i64)>> = Vec::new();
    let mut m: usize = 0;
    while m < count
        invariant
            m <= count,
            count <= 0x4000_0000,
            rows@.len() == m,
            forall|i: int| 0 <= i < m ==> (#[trigger] rows@[i])@.len() == count,
            forall|i: int, j: int|
                0 <= i < m && 0 <= j < count ==> (#[trigger] rows@[i]@[j]).0
                    == downwash_bracket_num(offset(i, j)) && rows@[i]@[j].1 == bracket_den(
                    offset(i, j),
                ),
        decreases count - m,
    {
        let mut row: Vec<(i64, i64)> = Vec::new();
        let mut n: usize = 0;
        while n < count
            invariant
                n <= count,
                m < count,
                count <= 0x4000_0000,
                row@.len() == n,
                forall|j: int|
                    0 <= j < n ==> (#[trigger] row@[j]).0 == downwash_bracket_num(
                        offset(m as int, j),
                    ) && row@[j].1 == bracket_den(offset(m as int, j)),
            decreases count - n,
        {
            row.push(downwash_bracket(m, n));
            n += 1;
        }
        rows.push(row);
        m += 1;
    }
    rows
}

} // verus!
