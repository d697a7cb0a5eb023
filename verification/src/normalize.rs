//! Literal normalization: every integer literal becomes a floating-point
//! literal, recursively through binary operations, so that a ratio such as
//! `1/6` is emitted as `(1. / 6.)` and never truncates as integer division.

use vstd::prelude::*;
use vstd::string::StringExecFns;

use crate::ast::Expr;
use crate::ast::SpecExpr;
use crate::ast::SpecTableau;
use crate::ast::Tableau;
use crate::ast::expr_model;
use crate::ast::seq_model;
use crate::ast::spec_valid;

verus! {

/// Literal normalization on the model: an integer literal gains a trailing
/// decimal point, a binary operation is normalized on both sides, everything
/// else passes through unchanged.
pub open spec fn spec_normalize(e: SpecExpr) -> SpecExpr
    decreases e,
{
    match e {
        SpecExpr::IntLit(d) => SpecExpr::FloatLit(d + "."@),
        SpecExpr::FloatLit(d) => SpecExpr::FloatLit(d),
        SpecExpr::Binary(op, l, r) => SpecExpr::Binary(
            op,
            Box::new(spec_normalize(*l)),
            Box::new(spec_normalize(*r)),
        ),
        SpecExpr::Opaque(t) => SpecExpr::Opaque(t),
    }
}

/// Normalization of a whole coefficient sequence.
pub open spec fn spec_norm_seq(s: Seq<SpecExpr>) -> Seq<SpecExpr> {
    s.map_values(|e: SpecExpr| spec_normalize(e))
}

/// Normalization of a whole tableau: the name is untouched, every
/// coefficient in the three sequences is normalized.
pub open spec fn spec_norm_tableau(t: SpecTableau) -> SpecTableau {
    SpecTableau {
        name: t.name,
        time_offsets: spec_norm_seq(t.time_offsets),
        coupling_matrix: t.coupling_matrix.map_values(|row: Seq<SpecExpr>| spec_norm_seq(row)),
        weights: spec_norm_seq(t.weights),
    }
}

/// Normalization never changes the shape of a tableau, so it preserves
/// validity.
pub proof fn lemma_norm_preserves_valid(t: SpecTableau)
    ensures
        spec_valid(spec_norm_tableau(t)) == spec_valid(t),
{
    let nt = spec_norm_tableau(t);
    assert(nt.coupling_matrix.len() == t.coupling_matrix.len());
    assert forall|i: int| 0 <= i < t.coupling_matrix.len() implies #[trigger] nt.coupling_matrix[i].len()
        == t.coupling_matrix[i].len() by {
        assert(nt.coupling_matrix[i] == spec_norm_seq(t.coupling_matrix[i]));
    }
    if spec_valid(t) {
        assert forall|i: int| 0 <= i < nt.coupling_matrix.len() implies #[trigger] nt.coupling_matrix[i].len()
            == i + 1 by {
            assert(t.coupling_matrix[i].len() == i + 1);
        }
    }
    if spec_valid(nt) {
        assert forall|i: int| 0 <= i < t.coupling_matrix.len() implies #[trigger] t.coupling_matrix[i].len()
            == i + 1 by {
            assert(nt.coupling_matrix[i].len() == i + 1);
        }
    }
}

/// Rewrites integer literals to floating-point literals, descending through
/// binary operations.
pub fn make_float(e: &Expr) -> (r: Expr)
    ensures
        r@ == spec_normalize(e@),
    decreases e,
{
    match e {
        Expr::IntLit(d) => {
            let nd = d.clone().concat(".");
            Expr::FloatLit(nd)
        },
        Expr::FloatLit(d) => Expr::FloatLit(d.clone()),
        Expr::Binary(op, l, r) => Expr::Binary(*op, Box::new(make_float(l)), Box::new(make_float(r))),
        Expr::Opaque(t) => Expr::Opaque(t.clone()),
    }
}

fn normalize_vec(v: &Vec<Expr>) -> (r: Vec<Expr>)
    ensures
        seq_model(r@) == spec_norm_seq(seq_model(v@)),
{
    let mut r: Vec<Expr> = Vec::new();
    let mut i: usize = 0;
    while i < v.len()
        invariant
            i <= v@.len(),
            r@.len() == i,
            forall|j: int|
                0 <= j < i ==> expr_model(#[trigger] r@[j]) == spec_normalize(expr_model(v@[j])),
        decreases v@.len() - i,
    {
        r.push(make_float(&v[i]));
        i += 1;
    }
    proof {
        assert(seq_model(r@) =~= spec_norm_seq(seq_model(v@)));
    }
    r
}

/// Normalizes every coefficient of the tableau: all time offsets, all
/// coupling-matrix entries, and all weights.
pub fn normalize_tableau(t: &Tableau) -> (r: Tableau)
    ensures
        r@ == spec_norm_tableau(t@),
{
    let time_offsets = normalize_vec(&t.time_offsets);
    let weights = normalize_vec(&t.weights);
    let mut coupling_matrix: Vec<Vec<Expr>> = Vec::new();
    let mut i: usize = 0;
    while i < t.coupling_matrix.len()
        invariant
            i <= t.coupling_matrix@.len(),
            coupling_matrix@.len() == i,
            forall|j: int|
                0 <= j < i ==> seq_model(#[trigger] coupling_matrix@[j]@) == spec_norm_seq(
                    seq_model(t.coupling_matrix@[j]@),
                ),
        decreases t.coupling_matrix@.len() - i,
    {
        coupling_matrix.push(normalize_vec(&t.coupling_matrix[i]));
        i += 1;
    }
    let r = Tableau { name: t.name.clone(), time_offsets, coupling_matrix, weights };
    proof {
        assert(r@.coupling_matrix =~= spec_norm_tableau(t@).coupling_matrix);
        assert(r@ == spec_norm_tableau(t@));
    }
    r
}

} // verus!
