//! The tableau validator: confirms the coupling matrix is strictly
//! lower-triangular (row `i`, 1-indexed, holds exactly `i` entries) and that
//! the offset and weight counts agree with the row count.

use vstd::prelude::*;

use crate::ast::GenError;
use crate::ast::Tableau;
use crate::ast::spec_valid;

verus! {

/// Walks the rows with a running expected length, then checks the offset and
/// weight counts against the row count. Succeeds exactly on valid tableaus;
/// every failure is a `DimensionMismatch`.
pub fn validate(t: &Tableau) -> (r: Result<(), GenError>)
    ensures
        r is Ok <==> spec_valid(t@),
        r is Err ==> r->Err_0 == GenError::DimensionMismatch,
{
    let n = t.coupling_matrix.len();
    let mut expected: usize = 0;
    let mut i: usize = 0;
    while i < n
        invariant
            n == t.coupling_matrix@.len(),
            i <= n,
            expected == i,
            forall|j: int| 0 <= j < i ==> #[trigger] t.coupling_matrix@[j]@.len() == j + 1,
        decreases n - i,
    {
        expected += 1;
        if t.coupling_matrix[i].len() != expected {
            proof {
                assert(t@.coupling_matrix[i as int].len() == t.coupling_matrix@[i as int]@.len());
            }
            return Err(GenError::DimensionMismatch);
        }
        i += 1;
    }
    if t.time_offsets.len() != expected {
        return Err(GenError::DimensionMismatch);
    }
    if t.weights.len() != expected {
        return Err(GenError::DimensionMismatch);
    }
    proof {
        assert forall|j: int| 0 <= j < t@.coupling_matrix.len() implies #[trigger] t@.coupling_matrix[j].len()
            == j + 1 by {
            assert(t@.coupling_matrix[j].len() == t.coupling_matrix@[j]@.len());
        }
    }
    Ok(())
}

} // verus!
