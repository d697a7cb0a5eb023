//! The emitter: assembles the generated stepper function, and the top-level
//! generation pass that validates, normalizes and emits.

use vstd::prelude::*;
use vstd::string::StringExecFns;

use crate::ast::GenError;
use crate::ast::SpecExpr;
use crate::ast::SpecTableau;
use crate::ast::Tableau;
use crate::ast::expr_model;
use crate::ast::seq_model;
use crate::ast::spec_valid;
use crate::expansion::calculate_ystep;
use crate::expansion::make_space_shift_expansion;
use crate::expansion::spec_stage_state;
use crate::expansion::spec_step_sum;
use crate::normalize::lemma_norm_preserves_valid;
use crate::normalize::normalize_tableau;
use crate::normalize::spec_norm_tableau;
use crate::render::k_name;
use crate::render::make_k;
use crate::render::render_expr;
use crate::render::spec_render;
use crate::validate::validate;

verus! {

/// The generated function's signature and `where` clause: a step size and a
/// time as `f64` scalars, a state of any type `V` closed under addition with
/// itself, scaling by a scalar, and copying, and a derivative callable
/// `(f64, V) -> V`.
pub open spec fn spec_header(name: Seq<char>) -> Seq<char> {
    "fn "@ + name
        + "<V, T>(h: f64, yn: V, tn: f64, f: T) -> V\nwhere\n    V: std::ops::Add<f64, Output = V> + std::ops::Add<V, Output = V> + std::ops::Mul<f64, Output = V> + std::ops::Div<f64, Output = V> + Copy,\n    T: Fn(f64, V) -> V,\n{\n"@
}

/// The binding of one stage value (0-indexed stage `i` binds `k{i+1}`): the
/// derivative evaluated at the stage's shifted time and state estimate.
pub open spec fn spec_binding(i: int, offset: SpecExpr, row: Seq<SpecExpr>) -> Seq<char> {
    "    let "@ + k_name(i + 1) + ": V = f(tn + (h * "@ + spec_render(offset) + "), "@
        + spec_stage_state(row) + ");\n"@
}

/// One line per stage of the generated body, in stage order.
pub open spec fn spec_binding_lines(t: SpecTableau) -> Seq<Seq<char>> {
    Seq::new(t.coupling_matrix.len(), |i: int| spec_binding(i, t.time_offsets[i], t.coupling_matrix[i]))
}

/// The first `n` of the given lines, concatenated in order.
pub open spec fn spec_cat_lines(lines: Seq<Seq<char>>, n: int) -> Seq<char>
    decreases n,
{
    if n <= 0 {
        Seq::empty()
    } else {
        spec_cat_lines(lines, n - 1) + lines[n - 1]
    }
}

/// The closing lines: the combined increment, scaled by the step size and
/// added to the current state, then returned.
pub open spec fn spec_tail(weights: Seq<SpecExpr>) -> Seq<char> {
    "    let ynp1: V = yn + ("@ + spec_step_sum(weights) + ") * h;\n    return ynp1;\n}\n"@
}

/// The full source text generated for a (already normalized) tableau: the
/// header, every stage's binding line in stage order, and the closing lines.
pub open spec fn spec_fn_text(t: SpecTableau) -> Seq<char> {
    spec_header(t.name) + spec_cat_lines(
        spec_binding_lines(t),
        t.coupling_matrix.len() as int,
    ) + spec_tail(t.weights)
}

/// Assembles the generated function for a valid tableau: header, one stage
/// binding per row in index order, and the closing return. The emitter
/// performs no validation and no normalization of its own.
#[verifier::loop_isolation(false)]
pub fn emit_function(t: &Tableau) -> (r: String)
    requires
        spec_valid(t@),
    ensures
        r@ == spec_fn_text(t@),
{
    let mut out = String::from_str("fn ");
    out.append(t.name.as_str());
    out.append(
        "<V, T>(h: f64, yn: V, tn: f64, f: T) -> V\nwhere\n    V: std::ops::Add<f64, Output = V> + std::ops::Add<V, Output = V> + std::ops::Mul<f64, Output = V> + std::ops::Div<f64, Output = V> + Copy,\n    T: Fn(f64, V) -> V,\n{\n",
    );
    proof {
        assert(out@ == spec_header(t@.name));
    }
    let n = t.coupling_matrix.len();
    let mut i: usize = 0;
    while i < n
        invariant
            i <= n,
            out@ == spec_header(t@.name) + spec_cat_lines(spec_binding_lines(t@), i as int),
        decreases n - i,
    {
        let mut line = String::from_str("    let ");
        let k = make_k(i + 1);
        line.append(k.as_str());
        line.append(": V = f(tn + (h * ");
        let off = render_expr(&t.time_offsets[i]);
        line.append(off.as_str());
        line.append("), ");
        let st = make_space_shift_expansion(&t.coupling_matrix[i]);
        line.append(st.as_str());
        line.append(");\n");
        proof {
            assert(t@.time_offsets[i as int] == expr_model(t.time_offsets@[i as int]));
            assert(t@.coupling_matrix[i as int] == seq_model(t.coupling_matrix@[i as int]@));
            assert(line@ == spec_binding(
                i as int,
                t@.time_offsets[i as int],
                t@.coupling_matrix[i as int],
            ));
        }
        out.append(line.as_str());
        proof {
            assert(spec_binding_lines(t@)[i as int] == line@);
            assert(out@ =~= spec_header(t@.name) + spec_cat_lines(spec_binding_lines(t@), i + 1));
        }
        i += 1;
    }
    let step = calculate_ystep(&t.weights);
    out.append("    let ynp1: V = yn + (");
    out.append(step.as_str());
    out.append(") * h;\n    return ynp1;\n}\n");
    proof {
        assert(t@.weights == seq_model(t.weights@));
        assert(out@ =~= spec_fn_text(t@));
    }
    out
}

/// The whole generation pass: validation, literal normalization, emission.
/// Succeeds exactly on valid tableaus, with the emitted text pinned down by
/// [`spec_fn_text`] over the normalized tableau; every failure is a
/// `DimensionMismatch`, and nothing partial is ever produced.
pub fn generate(t: &Tableau) -> (r: Result<String, GenError>)
    ensures
        r is Ok <==> spec_valid(t@),
        r is Ok ==> r->Ok_0@ == spec_fn_text(spec_norm_tableau(t@)),
        r is Err ==> r->Err_0 == GenError::DimensionMismatch,
{
    match validate(t) {
        Err(e) => Err(e),
        Ok(()) => {
            let nt = normalize_tableau(t);
            proof {
                lemma_norm_preserves_valid(t@);
            }
            Ok(emit_function(&nt))
        },
    }
}

} // verus!
