//! Code generator for explicit Runge-Kutta single-step integrators.
//!
//! Given a Butcher tableau (stage time offsets, a strictly lower-triangular
//! coupling matrix, and combination weights), the library emits the source of
//! a specialized stepper function for that exact scheme: one binding per
//! stage, evaluated in index order, with terms whose coefficient is the
//! literal zero elided at generation time.

pub mod ast;
pub mod emit;
pub mod expansion;
pub mod laws;
pub mod normalize;
pub mod parse;
pub mod render;
pub mod validate;
