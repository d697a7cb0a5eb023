//! The tableau parser: takes the four pieces of a tableau description and
//! establishes the one shape fact the rest of the pipeline assumes, that the
//! coupling matrix is an array of arrays.

use vstd::prelude::*;

use crate::ast::Expr;
use crate::ast::GenError;
use crate::ast::RawEntry;
use crate::ast::Tableau;

verus! {

/// Every element of the raw coupling-matrix array is itself a row.
pub open spec fn all_rows(m: Seq<RawEntry>) -> bool {
    forall|i: int| 0 <= i < m.len() ==> #[trigger] m[i] is Row
}

/// Builds a [`Tableau`] from a name, the time offsets, the raw
/// coupling-matrix elements, and the weights. Succeeds exactly when every
/// matrix element is itself an array of coefficients; a stray scalar is a
/// `MalformedTableau` failure. No semantic validation happens here.
#[verifier::loop_isolation(false)]
pub fn parse_tableau(name: String, time_offsets: Vec<Expr>, matrix: Vec<RawEntry>, weights: Vec<
    Expr,
>) -> (r: Result<Tableau, GenError>)
    ensures
        r is Ok <==> all_rows(matrix@),
        r is Ok ==> {
            let t = r->Ok_0;
            &&& t.name == name
            &&& t.time_offsets == time_offsets
            &&& t.weights == weights
            &&& t.coupling_matrix@.len() == matrix@.len()
            &&& forall|i: int|
                0 <= i < matrix@.len() ==> #[trigger] t.coupling_matrix@[i] == matrix@[i]->Row_0
        },
        r is Err ==> r->Err_0 == GenError::MalformedTableau,
{
    let ghost orig = matrix@;
    let mut rest = matrix;
    let mut rows: Vec<Vec<Expr>> = Vec::new();
    while rest.len() > 0
        invariant
            orig.len() == rows@.len() + rest@.len(),
            forall|j: int|
                0 <= j < rows@.len() ==> #[trigger] orig[j] is Row && rows@[j] == orig[j]->Row_0,
            forall|j: int|
                rows@.len() <= j < orig.len() ==> #[trigger] rest@[j - rows@.len()] == orig[j],
        decreases rest@.len(),
    {
        let ghost at = rows@.len() as int;
        let ghost prev = rest@;
        let entry = rest.remove(0);
        proof {
            assert(prev[at - rows@.len()] == orig[at]);
            assert(entry == orig[at]);
            assert(rest@ =~= prev.subrange(1, prev.len() as int));
        }
        match entry {
            RawEntry::Row(row) => {
                rows.push(row);
                proof {
                    assert forall|j: int|
                        rows@.len() <= j < orig.len() implies #[trigger] rest@[j - rows@.len()]
                        == orig[j] by {
                        let m = j - rows@.len();
                        assert(rest@[m] == prev[m + 1]);
                        assert(prev[j - at] == orig[j]);
                    }
                }
            },
            RawEntry::Scalar(_) => {
                proof {
                    assert(orig[at] is Scalar);
                    assert(!(orig[at] is Row));
                    assert(!all_rows(orig));
                }
                return Err(GenError::MalformedTableau);
            },
        }
    }
    proof {
        assert(all_rows(orig));
    }
    Ok(Tableau { name, time_offsets, coupling_matrix: rows, weights })
}

} // verus!
