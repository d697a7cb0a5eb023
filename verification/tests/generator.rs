//! End-to-end tests of the tableau-to-function generator.

use rk_codegen::ast::{BinOp, Expr, GenError, RawEntry, Tableau};
use rk_codegen::emit::generate;
use rk_codegen::parse::parse_tableau;
use rk_codegen::validate::validate;

fn ilit(s: &str) -> Expr {
    Expr::IntLit(String::from(s))
}

fn flit(s: &str) -> Expr {
    Expr::FloatLit(String::from(s))
}

fn ratio(a: &str, b: &str) -> Expr {
    Expr::Binary(BinOp::Div, Box::new(ilit(a)), Box::new(ilit(b)))
}

fn euler_tableau() -> Tableau {
    Tableau {
        name: String::from("euler"),
        time_offsets: vec![ilit("0")],
        coupling_matrix: vec![vec![ilit("0")]],
        weights: vec![ilit("1")],
    }
}

fn rk4_tableau() -> Tableau {
    Tableau {
        name: String::from("rk4"),
        time_offsets: vec![ilit("0"), flit("0.5"), flit("0.5"), ilit("1")],
        coupling_matrix: vec![
            vec![ilit("0")],
            vec![flit("0.5"), ilit("0")],
            vec![ilit("0"), flit("0.5"), ilit("0")],
            vec![ilit("0"), ilit("0"), ilit("1"), ilit("0")],
        ],
        weights: vec![ratio("1", "6"), ratio("1", "3"), ratio("1", "3"), ratio("1", "6")],
    }
}

const EULER_EXPECTED: &str = "fn euler<V, T>(h: f64, yn: V, tn: f64, f: T) -> V\nwhere\n    V: std::ops::Add<f64, Output = V> + std::ops::Add<V, Output = V> + std::ops::Mul<f64, Output = V> + std::ops::Div<f64, Output = V> + Copy,\n    T: Fn(f64, V) -> V,\n{\n    let k1: V = f(tn + (h * 0.), yn);\n    let ynp1: V = yn + ((k1 * 1.)) * h;\n    return ynp1;\n}\n";

#[test]
fn euler_source_text() {
    let src = generate(&euler_tableau()).unwrap();
    assert_eq!(src, EULER_EXPECTED);
}

// A verbatim copy of the source that `euler_source_text` pins down, so the
// generated function can be exercised numerically.
fn euler<V, T>(h: f64, yn: V, tn: f64, f: T) -> V
where
    V: std::ops::Add<f64, Output = V>
        + std::ops::Add<V, Output = V>
        + std::ops::Mul<f64, Output = V>
        + std::ops::Div<f64, Output = V>
        + Copy,
    T: Fn(f64, V) -> V,
{
    let k1: V = f(tn + (h * 0.), yn);
    let ynp1: V = yn + ((k1 * 1.)) * h;
    return ynp1;
}

#[test]
fn euler_steps_exponential_once() {
    let f = |_t: f64, y: f64| y;
    let out = euler(1.0, 1.0, 0.0, f);
    assert_eq!(out, 2.0);
}

const RK4_EXPECTED: &str = "fn rk4<V, T>(h: f64, yn: V, tn: f64, f: T) -> V\nwhere\n    V: std::ops::Add<f64, Output = V> + std::ops::Add<V, Output = V> + std::ops::Mul<f64, Output = V> + std::ops::Div<f64, Output = V> + Copy,\n    T: Fn(f64, V) -> V,\n{\n    let k1: V = f(tn + (h * 0.), yn);\n    let k2: V = f(tn + (h * 0.5), yn + ((k1 * 0.5)) * h);\n    let k3: V = f(tn + (h * 0.5), yn + ((k2 * 0.5)) * h);\n    let k4: V = f(tn + (h * 1.), yn + ((k3 * 1.)) * h);\n    let ynp1: V = yn + ((k1 * (1. / 6.)) + (k2 * (1. / 3.)) + (k3 * (1. / 3.)) + (k4 * (1. / 6.))) * h;\n    return ynp1;\n}\n";

#[test]
fn rk4_source_text() {
    let src = generate(&rk4_tableau()).unwrap();
    assert_eq!(src, RK4_EXPECTED);
}

// A verbatim copy of the source that `rk4_source_text` pins down.
fn rk4<V, T>(h: f64, yn: V, tn: f64, f: T) -> V
where
    V: std::ops::Add<f64, Output = V>
        + std::ops::Add<V, Output = V>
        + std::ops::Mul<f64, Output = V>
        + std::ops::Div<f64, Output = V>
        + Copy,
    T: Fn(f64, V) -> V,
{
    let k1: V = f(tn + (h * 0.), yn);
    let k2: V = f(tn + (h * 0.5), yn + ((k1 * 0.5)) * h);
    let k3: V = f(tn + (h * 0.5), yn + ((k2 * 0.5)) * h);
    let k4: V = f(tn + (h * 1.), yn + ((k3 * 1.)) * h);
    let ynp1: V = yn + ((k1 * (1. / 6.)) + (k2 * (1. / 3.)) + (k3 * (1. / 3.)) + (k4 * (1. / 6.)))
        * h;
    return ynp1;
}

#[test]
fn rk4_matches_exponential_to_method_order() {
    let f = |_t: f64, y: f64| y;
    // One step of the classic scheme for y' = y has local error O(h^5).
    let h = 0.1;
    let out = rk4(h, 1.0, 0.0, f);
    assert!((out - h.exp()).abs() < 1e-6);
    let h = 0.01;
    let out = rk4(h, 1.0, 0.0, f);
    assert!((out - h.exp()).abs() < 1e-11);
}

#[test]
fn dimension_mismatch_offsets() {
    // Three rows but four time offsets must fail, never truncate or pad.
    let t = Tableau {
        name: String::from("bad"),
        time_offsets: vec![ilit("0"), ilit("0"), ilit("0"), ilit("0")],
        coupling_matrix: vec![vec![ilit("0")], vec![ilit("0"), ilit("0")], vec![
            ilit("0"),
            ilit("0"),
            ilit("0"),
        ]],
        weights: vec![ilit("1"), ilit("1"), ilit("1")],
    };
    assert_eq!(validate(&t), Err(GenError::DimensionMismatch));
    assert_eq!(generate(&t).unwrap_err(), GenError::DimensionMismatch);
}

#[test]
fn dimension_mismatch_row_length() {
    // Row 2 must hold exactly two entries.
    let t = Tableau {
        name: String::from("bad"),
        time_offsets: vec![ilit("0"), ilit("1")],
        coupling_matrix: vec![vec![ilit("0")], vec![ilit("0"), ilit("0"), ilit("0")]],
        weights: vec![ilit("1"), ilit("0")],
    };
    assert_eq!(generate(&t).unwrap_err(), GenError::DimensionMismatch);
}

#[test]
fn dimension_mismatch_weights() {
    let t = Tableau {
        name: String::from("bad"),
        time_offsets: vec![ilit("0")],
        coupling_matrix: vec![vec![ilit("0")]],
        weights: vec![ilit("1"), ilit("1")],
    };
    assert_eq!(generate(&t).unwrap_err(), GenError::DimensionMismatch);
}

#[test]
fn malformed_matrix_entry() {
    // A coupling-matrix element that is not an array is a parse failure.
    let r = parse_tableau(
        String::from("bad"),
        vec![ilit("0")],
        vec![RawEntry::Scalar(ilit("0"))],
        vec![ilit("1")],
    );
    assert_eq!(r.unwrap_err(), GenError::MalformedTableau);
}

#[test]
fn parse_accepts_array_rows() {
    let t = parse_tableau(
        String::from("euler"),
        vec![ilit("0")],
        vec![RawEntry::Row(vec![ilit("0")])],
        vec![ilit("1")],
    )
    .unwrap();
    let src = generate(&t).unwrap();
    assert_eq!(src, EULER_EXPECTED);
}

#[test]
fn idempotent_generation() {
    // Generation is a pure function of the tableau: no hidden state.
    let t = rk4_tableau();
    let first = generate(&t).unwrap();
    let second = generate(&t).unwrap();
    assert_eq!(first, second);
    // Two independently built but equal tableaus agree as well.
    let third = generate(&rk4_tableau()).unwrap();
    assert_eq!(first, third);
}
