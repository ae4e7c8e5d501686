//! Composite quadrature rules (midpoint, trapezoid, Simpson) described by
//! their exact integer stencils, the convergence sweep that compares them,
//! the merge of result tables and the dispatch of the program's commands.
//!
//! Floating-point evaluation of an integrand is left to the caller: the
//! library fixes where each rule samples, how each sample is weighted and
//! which subdivision counts a sweep visits. On the integrands that exact
//! arithmetic can follow (constants, `x^2`) the error of each rule is proved
//! outright.

pub mod rules;
pub mod sweep;
pub mod table;
pub mod command;
pub mod ellipse;
pub mod moments;
