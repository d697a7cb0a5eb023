//! The tableau data model: coefficient expressions, the tableau itself, and
//! the failures a generation pass can report.

use vstd::prelude::*;
use vstd::string::StringExecFns;

verus! {

/// A binary arithmetic operator that may appear inside a coefficient
/// expression, such as the `/` of the weight `1/6`.
#[derive(Clone, Copy, Debug, PartialEq, Eq, Structural)]
pub enum BinOp {
    Add,
    Sub,
    Mul,
    Div,
}

/// A numeric coefficient expression of a tableau.
///
/// Integer and floating-point literals carry their base-10 digit text exactly
/// as written (a float's digits include the decimal point, so `0.` and `0.0`
/// are distinct). Anything that is neither a literal nor a binary operation
/// (a named constant, a call) is carried through opaquely as its source text.
#[derive(Debug)]
pub enum Expr {
    IntLit(String),
    FloatLit(String),
    Binary(BinOp, Box<Expr>, Box<Expr>),
    Opaque(String),
}

/// The mathematical model of an [`Expr`]: the same tree with every piece of
/// text abstracted to its character sequence.
pub enum SpecExpr {
    IntLit(Seq<char>),
    FloatLit(Seq<char>),
    Binary(BinOp, Box<SpecExpr>, Box<SpecExpr>),
    Opaque(Seq<char>),
}

pub open spec fn expr_model(e: Expr) -> SpecExpr
    decreases e,
{
    match e {
        Expr::IntLit(d) => SpecExpr::IntLit(d@),
        Expr::FloatLit(d) => SpecExpr::FloatLit(d@),
        Expr::Binary(op, l, r) => SpecExpr::Binary(
            op,
            Box::new(expr_model(*l)),
            Box::new(expr_model(*r)),
        ),
        Expr::Opaque(t) => SpecExpr::Opaque(t@),
    }
}

impl View for Expr {
    type V = SpecExpr;

    open spec fn view(&self) -> SpecExpr {
        expr_model(*self)
    }
}

/// The model of a sequence of expressions.
pub open spec fn seq_model(s: Seq<Expr>) -> Seq<SpecExpr> {
    s.map_values(|e: Expr| expr_model(e))
}

/// The model of the coupling matrix: one modelled row per stage.
pub open spec fn matrix_model(m: Seq<Vec<Expr>>) -> Seq<Seq<SpecExpr>> {
    m.map_values(|row: Vec<Expr>| seq_model(row@))
}

/// A Butcher tableau: the sole input of a generation pass.
///
/// Row `i` of the coupling matrix (0-indexed) holds the coefficients
/// `a_{i+1,1} .. a_{i+1,i+1}`, the last of which is the diagonal slot that an
/// explicit scheme leaves at the literal zero.
#[derive(Debug)]
pub struct Tableau {
    pub name: String,
    pub time_offsets: Vec<Expr>,
    pub coupling_matrix: Vec<Vec<Expr>>,
    pub weights: Vec<Expr>,
}

/// The mathematical model of a [`Tableau`].
pub struct SpecTableau {
    pub name: Seq<char>,
    pub time_offsets: Seq<SpecExpr>,
    pub coupling_matrix: Seq<Seq<SpecExpr>>,
    pub weights: Seq<SpecExpr>,
}

impl View for Tableau {
    type V = SpecTableau;

    open spec fn view(&self) -> SpecTableau {
        SpecTableau {
            name: self.name@,
            time_offsets: seq_model(self.time_offsets@),
            coupling_matrix: matrix_model(self.coupling_matrix@),
            weights: seq_model(self.weights@),
        }
    }
}

/// One element of the raw coupling-matrix array as the parser receives it: a
/// proper row of coefficients, or a stray scalar expression where a row was
/// expected.
#[derive(Debug)]
pub enum RawEntry {
    Row(Vec<Expr>),
    Scalar(Expr),
}

/// A failure of the generation pass. Both are fatal: no partial output is
/// ever produced.
#[derive(Clone, Copy, PartialEq, Eq, Structural, Debug)]
pub enum GenError {
    /// An element of the coupling-matrix array was not itself an array.
    MalformedTableau,
    /// A row's length does not equal its 1-indexed position, or the offset or
    /// weight counts disagree with the row count.
    DimensionMismatch,
}

/// A tableau describes an explicit scheme of consistent dimensions: row `i`
/// (0-indexed) has `i + 1` entries, and the offsets and weights both count as
/// many entries as there are rows.
pub open spec fn spec_valid(t: SpecTableau) -> bool {
    &&& forall|i: int|
        0 <= i < t.coupling_matrix.len() ==> #[trigger] t.coupling_matrix[i].len() == i + 1
    &&& t.time_offsets.len() == t.coupling_matrix.len()
    &&& t.weights.len() == t.coupling_matrix.len()
}

/// Whether an expression is the literal zero: exactly the integer literal `0`
/// or the float literal `0.`, nothing algebraically equivalent. Zero elision
/// is purely syntactic by design: `0.0`, `00`, or a named zero constant are
/// not elided.
pub open spec fn spec_is_zero(e: SpecExpr) -> bool {
    match e {
        SpecExpr::IntLit(d) => d == "0"@,
        SpecExpr::FloatLit(d) => d == "0."@,
        _ => false,
    }
}

/// Decides [`spec_is_zero`] on an expression.
pub fn is_zero(e: &Expr) -> (r: bool)
    ensures
        r == spec_is_zero(e@),
{
    match e {
        Expr::IntLit(d) => {
            let z = String::from_str("0");
            *d == z
        },
        Expr::FloatLit(d) => {
            let z = String::from_str("0.");
            *d == z
        },
        _ => false,
    }
}

} // verus!
