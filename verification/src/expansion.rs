//! The stage and step expression builders: the weighted sums of stage values
//! with static elision of literal-zero terms.

use vstd::prelude::*;
use vstd::string::StringExecFns;

use crate::ast::Expr;
use crate::ast::SpecExpr;
use crate::ast::expr_model;
use crate::ast::is_zero;
use crate::ast::seq_model;
use crate::ast::spec_is_zero;
use crate::render::k_name;
use crate::render::make_k;
use crate::render::render_expr;
use crate::render::spec_render;

verus! {

/// The surviving terms of a weighted sum over the first `n` coefficients of
/// `row`: for each coefficient that is not the literal zero, the pair of its
/// 1-indexed position and the coefficient itself, in position order.
pub open spec fn spec_term_list(row: Seq<SpecExpr>, n: int) -> Seq<(int, SpecExpr)>
    decreases n,
{
    if n <= 0 {
        Seq::empty()
    } else if spec_is_zero(row[n - 1]) {
        spec_term_list(row, n - 1)
    } else {
        spec_term_list(row, n - 1).push((n, row[n - 1]))
    }
}

/// The source text of one term: the stage value times its coefficient.
pub open spec fn spec_term_text(j: int, e: SpecExpr) -> Seq<char> {
    "("@ + k_name(j) + " * "@ + spec_render(e) + ")"@
}

/// Joins rendered terms with ` + `; an empty term list has no text at all.
pub open spec fn spec_join(terms: Seq<(int, SpecExpr)>) -> Option<Seq<char>>
    decreases terms.len(),
{
    if terms.len() == 0 {
        None
    } else {
        let last = terms.last();
        match spec_join(terms.drop_last()) {
            None => Some(spec_term_text(last.0, last.1)),
            Some(p) => Some(p + " + "@ + spec_term_text(last.0, last.1)),
        }
    }
}

/// The weighted-sum text over the first `n` coefficients of `row`: `None`
/// when every coefficient is the literal zero.
pub open spec fn spec_sum(row: Seq<SpecExpr>, n: int) -> Option<Seq<char>> {
    spec_join(spec_term_list(row, n))
}

/// The state argument of a stage: `yn` alone when the whole row is elided,
/// otherwise `yn` plus the step size times the surviving sum.
pub open spec fn spec_stage_state(row: Seq<SpecExpr>) -> Seq<char> {
    match spec_sum(row, row.len() as int) {
        None => "yn"@,
        Some(s) => "yn + ("@ + s + ") * h"@,
    }
}

/// The final increment: the weighted sum of all stage values, or the literal
/// zero when every weight is elided (a degenerate but legal no-op scheme).
pub open spec fn spec_step_sum(weights: Seq<SpecExpr>) -> Seq<char> {
    match spec_sum(weights, weights.len() as int) {
        None => "0."@,
        Some(s) => s,
    }
}

/// Accumulates the surviving terms of a weighted sum in position order,
/// skipping literal-zero coefficients entirely rather than emitting `+ 0`
/// terms.
#[verifier::loop_isolation(false)]
fn build_sum(row: &Vec<Expr>) -> (r: Option<String>)
    ensures
        r is Some <==> spec_sum(seq_model(row@), row@.len() as int) is Some,
        r is Some ==> r->0@ == spec_sum(seq_model(row@), row@.len() as int)->0,
{
    let ghost m = seq_model(row@);
    let mut acc: Option<String> = None;
    let mut i: usize = 0;
    while i < row.len()
        invariant
            i <= row@.len(),
            acc is Some <==> spec_sum(m, i as int) is Some,
            acc is Some ==> acc->0@ == spec_sum(m, i as int)->0,
        decreases row@.len() - i,
    {
        proof {
            assert(m[i as int] == expr_model(row@[i as int]));
        }
        let ghost tl = spec_term_list(m, i as int);
        if !is_zero(&row[i]) {
            let k = make_k(i + 1);
            let mut term = String::from_str("(");
            term.append(k.as_str());
            term.append(" * ");
            let re = render_expr(&row[i]);
            term.append(re.as_str());
            term.append(")");
            proof {
                assert(term@ == spec_term_text(i + 1, m[i as int]));
                let tl2 = spec_term_list(m, i + 1);
                assert(tl2 == tl.push((i + 1, m[i as int])));
                assert(tl2.drop_last() =~= tl);
                assert(tl2.last() == (i + 1, m[i as int]));
            }
            acc = match acc {
                None => Some(term),
                Some(p) => {
                    let mut p = p;
                    p.append(" + ");
                    p.append(term.as_str());
                    Some(p)
                },
            };
        } else {
            proof {
                assert(spec_term_list(m, i + 1) == tl);
            }
        }
        i += 1;
    }
    acc
}

/// Builds the state argument of one stage from its coupling-matrix row:
/// `yn` alone when every coefficient is the literal zero, otherwise
/// `yn + (sum) * h` where the sum holds one `(kj * coefficient)` term per
/// surviving coefficient, in column order.
pub fn make_space_shift_expansion(row: &Vec<Expr>) -> (r: String)
    ensures
        r@ == spec_stage_state(seq_model(row@)),
{
    match build_sum(row) {
        None => String::from_str("yn"),
        Some(s) => {
            let mut out = String::from_str("yn + (");
            out.append(s.as_str());
            out.append(") * h");
            out
        },
    }
}

/// Builds the final increment from the weights: one `(ki * weight)` term per
/// weight that is not the literal zero, or the literal zero when all are.
pub fn calculate_ystep(weights: &Vec<Expr>) -> (r: String)
    ensures
        r@ == spec_step_sum(seq_model(weights@)),
{
    match build_sum(weights) {
        None => String::from_str("0."),
        Some(s) => s,
    }
}

} // verus!
