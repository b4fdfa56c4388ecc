//! Building full-span station distributions from half-span ones.
//!
//! Twist and dihedral distributions are usually given from the tip to the
//! centreline of one wing half and extended to the other half by symmetry:
//! mirrored for twist, reflected with opposite sign for dihedral. These
//! helpers perform the index bookkeeping of that extension exactly, for any
//! element type; what the elements are (angles in degrees, chord lengths)
//! is the caller's business.

use vstd::prelude::*;

verus! {

/// Concatenates `low` with `high` reversed: the result reads `low` from the
/// tip of one half and `high` backwards, so that `high[i]` lands at the
/// position mirroring index `i` about the centreline.
pub fn concat_with_reversed<T: Copy>(low: &Vec<T>, high: &Vec<T>) -> (r: Vec<T>)
    ensures
        r@.len() == low@.len() + high@.len(),
        forall|i: int| 0 <= i < low@.len() ==> #[trigger] r@[i] == low@[i],
        forall|i: int|
            0 <= i < high@.len() ==> #[trigger] r@[low@.len() + i] == high@[high@.len() - 1 - i],
{
    let mut r: Vec<T> = Vec::new();
    let mut i: usize = 0;
    while i < low.len()
        invariant
            i <= low@.len(),
            r@.len() == i,
            forall|k: int| 0 <= k < i ==> #[trigger] r@[k] == low@[k],
        decreases low@.len() - i,
    {
        r.push(low[i]);
        i += 1;
    }
    let mut j: usize = high.len();
    while j > 0
        invariant
            j <= high@.len(),
            r@.len() == low@.len() + high@.len() - j,
            forall|k: int| 0 <= k < low@.len() ==> #[trigger] r@[k] == low@[k],
            forall|k: int|
                0 <= k < high@.len() - j ==> #[trigger] r@[low@.len() + k] == high@[high@.len() - 1
                    - k],
        decreases j,
    {
        j -= 1;
        r.push(high[j]);
    }
    r
}

/// A full-span distribution mirrored about the centreline: the half-span
/// values fill the first half in order and the second half in reverse, so
/// the result is symmetric station by station.
pub fn mirrored_from_half<T: Copy>(half: &Vec<T>) -> (r: Vec<T>)
    ensures
        r@.len() == 2 * half@.len(),
        forall|i: int| 0 <= i < half@.len() ==> #[trigger] r@[i] == half@[i],
        forall|i: int| 0 <= i < r@.len() ==> #[trigger] r@[i] == r@[r@.len() - 1 - i],
{
    let r = concat_with_reversed(half, half);
    proof {
        let h = half@.len() as int;
        assert forall|i: int| 0 <= i < 2 * h implies #[trigger] r@[i] == r@[2 * h - 1 - i] by {
            if i < h {
                assert(r@[h + (h - 1 - i)] == half@[i]);
            } else {
                assert(r@[h + (i - h)] == half@[2 * h - 1 - i]);
            }
        }
    }
    r
}

} // verus!
