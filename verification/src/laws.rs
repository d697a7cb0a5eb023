//! The laws of the generator, stated and proved once and for all tableaus.

use vstd::prelude::*;

use crate::ast::BinOp;
use crate::ast::SpecExpr;
use crate::ast::SpecTableau;
use crate::ast::spec_is_zero;
use crate::ast::spec_valid;
use crate::emit::spec_binding;
use crate::emit::spec_binding_lines;
use crate::expansion::spec_stage_state;
use crate::expansion::spec_step_sum;
use crate::expansion::spec_term_list;
use crate::normalize::spec_norm_tableau;
use crate::normalize::spec_normalize;
use crate::render::spec_op_text;
use crate::render::spec_render;
use crate::emit::spec_fn_text;
use crate::ast::Tableau;

verus! {

/// Every surviving term of a weighted sum over the first `n` coefficients
/// stands at a 1-indexed position in `1..=n`, and its coefficient is not the
/// literal zero.
pub proof fn lemma_term_list_bounds(row: Seq<SpecExpr>, n: int)
    ensures
        forall|j: int|
            0 <= j < spec_term_list(row, n).len() ==> {
                let p = #[trigger] spec_term_list(row, n)[j];
                &&& 1 <= p.0 <= n
                &&& !spec_is_zero(row[p.0 - 1])
            },
    decreases n,
{
    if n > 0 {
        lemma_term_list_bounds(row, n - 1);
        let tl = spec_term_list(row, n);
        let prev = spec_term_list(row, n - 1);
        if !spec_is_zero(row[n - 1]) {
            assert forall|j: int| 0 <= j < tl.len() implies {
                let p = #[trigger] tl[j];
                &&& 1 <= p.0 <= n
                &&& !spec_is_zero(row[p.0 - 1])
            } by {
                if j < prev.len() {
                    assert(tl[j] == prev[j]);
                } else {
                    assert(tl[j] == (n, row[n - 1]));
                }
            }
        }
    }
}

/// A validated tableau whose diagonal coefficients are all the literal zero
/// generates exactly one stage binding per stage, in index order, and the
/// state estimate of the stage binding `k{i+1}` sums only terms over stage
/// values `k1 .. ki` with smaller index: the evaluation order realizes the
/// explicitness of the scheme.
pub proof fn lemma_explicit_stage_structure(t: SpecTableau)
    requires
        spec_valid(t),
        forall|i: int|
            0 <= i < t.coupling_matrix.len() ==> spec_is_zero(
                #[trigger] t.coupling_matrix[i][i],
            ),
    ensures
        spec_binding_lines(t).len() == t.coupling_matrix.len(),
        forall|i: int|
            0 <= i < t.coupling_matrix.len() ==> #[trigger] spec_binding_lines(t)[i]
                == spec_binding(i, t.time_offsets[i], t.coupling_matrix[i]),
        forall|i: int, j: int|
            0 <= i < t.coupling_matrix.len() && 0 <= j < spec_term_list(
                t.coupling_matrix[i],
                t.coupling_matrix[i].len() as int,
            ).len() ==> {
                let p = #[trigger] spec_term_list(
                    t.coupling_matrix[i],
                    t.coupling_matrix[i].len() as int,
                )[j];
                1 <= p.0 <= i
            },
{
    assert forall|i: int, j: int|
        0 <= i < t.coupling_matrix.len() && 0 <= j < spec_term_list(
            t.coupling_matrix[i],
            t.coupling_matrix[i].len() as int,
        ).len() implies {
        let p = #[trigger] spec_term_list(
            t.coupling_matrix[i],
            t.coupling_matrix[i].len() as int,
        )[j];
        1 <= p.0 <= i
    } by {
        let row = t.coupling_matrix[i];
        let len = row.len() as int;
        lemma_term_list_bounds(row, len);
        let p = spec_term_list(row, len)[j];
        assert(len == i + 1);
        assert(!spec_is_zero(row[p.0 - 1]));
        assert(spec_is_zero(row[i]));
    }
}

/// A row consisting entirely of literal-zero coefficients contributes no
/// term at all: its stage's state argument is exactly `yn`.
pub proof fn lemma_all_zero_row_collapses(row: Seq<SpecExpr>)
    requires
        forall|j: int| 0 <= j < row.len() ==> spec_is_zero(#[trigger] row[j]),
    ensures
        spec_stage_state(row) == "yn"@,
{
    lemma_term_list_empty(row, row.len() as int);
}

/// Weights consisting entirely of literal zeros collapse the increment to
/// the literal zero.
pub proof fn lemma_all_zero_weights_collapse(weights: Seq<SpecExpr>)
    requires
        forall|j: int| 0 <= j < weights.len() ==> spec_is_zero(#[trigger] weights[j]),
    ensures
        spec_step_sum(weights) == "0."@,
{
    lemma_term_list_empty(weights, weights.len() as int);
}

proof fn lemma_term_list_empty(row: Seq<SpecExpr>, n: int)
    requires
        n <= row.len(),
        forall|j: int| 0 <= j < row.len() ==> spec_is_zero(#[trigger] row[j]),
    ensures
        spec_term_list(row, n) == Seq::<(int, SpecExpr)>::empty(),
    decreases n,
{
    if n > 0 {
        lemma_term_list_empty(row, n - 1);
    }
}

/// Literal normalization rewrites an integer weight to the floating-point
/// literal with the same digits: the numeric value a client sees is the
/// same, only the literal's spelling changes.
pub proof fn lemma_integer_weight_normalizes(d: Seq<char>)
    ensures
        spec_normalize(SpecExpr::IntLit(d)) == SpecExpr::FloatLit(d + "."@),
        spec_render(spec_normalize(SpecExpr::IntLit(d))) == d + "."@,
{
}

/// An integer ratio such as `1/6` is normalized on both sides before the
/// division is emitted, so the generated text reads `(1. / 6.)` and can
/// never truncate as integer division.
pub proof fn lemma_integer_ratio_normalizes(a: Seq<char>, b: Seq<char>)
    ensures
        spec_normalize(
            SpecExpr::Binary(
                BinOp::Div,
                Box::new(SpecExpr::IntLit(a)),
                Box::new(SpecExpr::IntLit(b)),
            ),
        ) == SpecExpr::Binary(
            BinOp::Div,
            Box::new(SpecExpr::FloatLit(a + "."@)),
            Box::new(SpecExpr::FloatLit(b + "."@)),
        ),
        spec_render(
            spec_normalize(
                SpecExpr::Binary(
                    BinOp::Div,
                    Box::new(SpecExpr::IntLit(a)),
                    Box::new(SpecExpr::IntLit(b)),
                ),
            ),
        ) =~= "("@ + a + "."@ + " / "@ + b + "."@ + ")"@,
{
    let la = SpecExpr::IntLit(a);
    let lb = SpecExpr::IntLit(b);
    let e = SpecExpr::Binary(BinOp::Div, Box::new(la), Box::new(lb));
    assert(spec_normalize(la) == SpecExpr::FloatLit(a + "."@));
    assert(spec_normalize(lb) == SpecExpr::FloatLit(b + "."@));
    assert(spec_normalize(e) == SpecExpr::Binary(
        BinOp::Div,
        Box::new(spec_normalize(la)),
        Box::new(spec_normalize(lb)),
    ));
    let ne = spec_normalize(e);
    assert(spec_render(ne) == "("@ + spec_render(SpecExpr::FloatLit(a + "."@)) + spec_op_text(
        BinOp::Div,
    ) + spec_render(SpecExpr::FloatLit(b + "."@)) + ")"@);
    assert(spec_render(ne) =~= "("@ + a + "."@ + " / "@ + b + "."@ + ")"@);
}

/// Literal normalization neither creates nor destroys elidable zeros: an
/// expression is the literal zero after normalization exactly when it was
/// before (`0` becomes `0.`, both elided; `0.0` stays `0.0`, never elided).
pub proof fn lemma_normalization_preserves_elision(e: SpecExpr)
    ensures
        spec_is_zero(spec_normalize(e)) == spec_is_zero(e),
{
    reveal_strlit("0");
    reveal_strlit(".");
    reveal_strlit("0.");
    match e {
        SpecExpr::IntLit(d) => {
            if d == "0"@ {
                assert(d + "."@ =~= "0."@);
            }
            if d + "."@ == "0."@ {
                assert(("."@).len() == 1);
                assert(("0."@).len() == 2);
                assert((d + "."@).len() == d.len() + 1);
                assert(d.len() == 1);
                assert(d[0] == ("0."@)[0]);
                assert(d =~= "0"@);
            }
        },
        _ => {},
    }
}

/// Generation is a pure function of the tableau alone: two tableaus with the
/// same model generate, after normalization, the very same source text.
/// There is no hidden state, so generating twice from one tableau is
/// idempotent.
pub proof fn lemma_generation_deterministic(t1: Tableau, t2: Tableau)
    requires
        t1@ == t2@,
    ensures
        spec_fn_text(spec_norm_tableau(t1@)) == spec_fn_text(spec_norm_tableau(t2@)),
{
}

} // verus!
