//! An interactive derivation engine for a small imperative language.
//!
//! Programs are parsed into an abstract syntax tree and then rewritten one
//! inference step at a time: the operator picks a rule from a fixed
//! catalogue, and the engine either rewrites the focused judgment directly
//! (axioms) or opens a premise that must itself be discharged before the
//! original judgment can be rewritten (congruence rules).  An explicit
//! two-stack machine stands in for recursive premise checking, so a caller
//! can drive the derivation one step at a time and undo steps.

pub mod ast;
pub mod state;
pub mod judgment;
pub mod rules;
pub mod stack;
pub mod parse;
pub mod render;
