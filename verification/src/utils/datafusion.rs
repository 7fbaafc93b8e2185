//! Emptiness of a query result, from the row counts of its record batches.

use vstd::prelude::*;

verus! {

/// Every batch holds no row (so a result with no batch is empty too).
pub open spec fn all_empty(row_counts: Seq<usize>) -> bool {
    forall|i: int| 0 <= i < row_counts.len() ==> #[trigger] row_counts[i] == 0
}

/// Whether a collected result is empty, given the row count of each of its
/// record batches.
pub fn is_empty(row_counts: &Vec<usize>) -> (empty: bool)
    ensures
        empty == all_empty(row_counts@),
{
    let mut i: usize = 0;
    while i < row_counts.len()
        invariant
            i <= row_counts@.len(),
            forall|k: int| 0 <= k < i ==> #[trigger] row_counts@[k] == 0,
        decreases row_counts@.len() - i,
    {
        if row_counts[i] != 0 {
            return false;
        }
        i = i + 1;
    }
    true
}

/// A result in which some batch holds a row is not empty, whatever the
/// other batches hold.
pub proof fn lemma_a_row_makes_result_nonempty(row_counts: Seq<usize>, i: int)
    requires
        0 <= i < row_counts.len(),
        row_counts[i] > 0,
    ensures
        !all_empty(row_counts),
{
    assert(row_counts[i] != 0);
}

/// A result whose batches all hold no row is empty.
pub proof fn lemma_no_row_means_empty(row_counts: Seq<usize>)
    requires
        forall|i: int| 0 <= i < row_counts.len() ==> row_counts[i] == 0,
    ensures
        all_empty(row_counts),
{
}

/// A result is empty exactly when both parts of any split of its batches
/// are empty.
pub proof fn lemma_empty_split(a: Seq<usize>, b: Seq<usize>)
    ensures
        all_empty(a + b) == (all_empty(a) && all_empty(b)),
{
    if all_empty(a + b) {
        assert forall|i: int| 0 <= i < a.len() implies a[i] == 0 by {
            assert((a + b)[i] == a[i]);
        }
        assert forall|i: int| 0 <= i < b.len() implies b[i] == 0 by {
            assert((a + b)[a.len() + i] == b[i]);
        }
    }
    if all_empty(a) && all_empty(b) {
        assert forall|i: int| 0 <= i < (a + b).len() implies #[trigger] (a + b)[i] == 0 by {
            if i < a.len() {
                assert((a + b)[i] == a[i]);
            } else {
                assert((a + b)[i] == b[i - a.len()]);
            }
        }
    }
}

} // verus!
