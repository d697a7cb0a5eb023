//! Rendering of names and coefficient expressions to source text.

use vstd::prelude::*;
use vstd::string::StringExecFns;

use crate::ast::BinOp;
use crate::ast::Expr;
use crate::ast::SpecExpr;

verus! {

/// The decimal digit character for `d` in `0..10`.
pub open spec fn digit_char(d: int) -> char {
    if d == 0 {
        '0'
    } else if d == 1 {
        '1'
    } else if d == 2 {
        '2'
    } else if d == 3 {
        '3'
    } else if d == 4 {
        '4'
    } else if d == 5 {
        '5'
    } else if d == 6 {
        '6'
    } else if d == 7 {
        '7'
    } else if d == 8 {
        '8'
    } else {
        '9'
    }
}

/// The base-10 digit text of `n`, most significant digit first.
pub open spec fn spec_digits(n: nat) -> Seq<char>
    decreases n,
{
    if n < 10 {
        seq![digit_char(n as int)]
    } else {
        spec_digits(n / 10) + seq![digit_char((n % 10) as int)]
    }
}

fn digit_str(d: usize) -> (r: &'static str)
    requires
        d < 10,
    ensures
        r@ == seq![digit_char(d as int)],
{
    proof {
        reveal_strlit("0");
        reveal_strlit("1");
        reveal_strlit("2");
        reveal_strlit("3");
        reveal_strlit("4");
        reveal_strlit("5");
        reveal_strlit("6");
        reveal_strlit("7");
        reveal_strlit("8");
        reveal_strlit("9");
    }
    let r = match d {
        0 => "0",
        1 => "1",
        2 => "2",
        3 => "3",
        4 => "4",
        5 => "5",
        6 => "6",
        7 => "7",
        8 => "8",
        _ => "9",
    };
    proof {
        assert(r@ =~= seq![digit_char(d as int)]);
    }
    r
}

/// Writes `n` in base 10.
pub fn dec_digits(n: usize) -> (r: String)
    ensures
        r@ == spec_digits(n as nat),
    decreases n,
{
    if n < 10 {
        String::from_str(digit_str(n))
    } else {
        proof {
            assert(n / 10 < n) by (nonlinear_arith)
                requires
                    n >= 10,
            ;
        }
        let mut s = dec_digits(n / 10);
        s.append(digit_str(n % 10));
        s
    }
}

/// The name of the `i`-th stage variable (1-indexed): `k1`, `k2`, ...
/// The names are derived from the stage index alone, so generation is
/// deterministic, and they live only inside the generated function's body.
pub open spec fn k_name(i: int) -> Seq<char> {
    "k"@ + spec_digits(i as nat)
}

/// Builds the name of the `i`-th stage variable (1-indexed).
pub fn make_k(i: usize) -> (r: String)
    ensures
        r@ == k_name(i as int),
{
    let mut s = String::from_str("k");
    let d = dec_digits(i);
    s.append(d.as_str());
    s
}

/// The source text of a binary operator, padded with one space on each side.
pub open spec fn spec_op_text(op: BinOp) -> Seq<char> {
    match op {
        BinOp::Add => " + "@,
        BinOp::Sub => " - "@,
        BinOp::Mul => " * "@,
        BinOp::Div => " / "@,
    }
}

fn op_text(op: &BinOp) -> (r: &'static str)
    ensures
        r@ == spec_op_text(*op),
{
    match op {
        BinOp::Add => " + ",
        BinOp::Sub => " - ",
        BinOp::Mul => " * ",
        BinOp::Div => " / ",
    }
}

/// The source text of a coefficient expression. Literals and opaque
/// expressions print as their own text; a binary operation is parenthesized
/// so that its meaning does not depend on the surrounding precedence.
pub open spec fn spec_render(e: SpecExpr) -> Seq<char>
    decreases e,
{
    match e {
        SpecExpr::IntLit(d) => d,
        SpecExpr::FloatLit(d) => d,
        SpecExpr::Binary(op, l, r) => "("@ + spec_render(*l) + spec_op_text(op) + spec_render(*r)
            + ")"@,
        SpecExpr::Opaque(t) => t,
    }
}

/// Renders a coefficient expression to source text.
pub fn render_expr(e: &Expr) -> (r: String)
    ensures
        r@ == spec_render(e@),
    decreases e,
{
    match e {
        Expr::IntLit(d) => d.clone(),
        Expr::FloatLit(d) => d.clone(),
        Expr::Binary(op, l, r) => {
            let mut s = String::from_str("(");
            let ls = render_expr(l);
            s.append(ls.as_str());
            s.append(op_text(op));
            let rs = render_expr(r);
            s.append(rs.as_str());
            s.append(")");
            s
        },
        Expr::Opaque(t) => t.clone(),
    }
}

} // verus!
