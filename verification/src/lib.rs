//! A verified model of the Bethe-Bloch stopping power of protons in water.
//!
//! The library derives the formula that gives the stopping power at each
//! energy of a sweep, in four variants: without corrections, with the
//! density-effect correction, with the shell correction, and with both. Verus
//! does not reason about floating-point arithmetic, so the model is built as
//! an explicit expression tree over IEEE-754 double bit patterns: the verified
//! contracts pin down the exact shape of every formula — each constant to the
//! bit, the order of every operation, the tie-breaking of every threshold —
//! and a thin unverified evaluator reduces a tree to a number.

pub mod constants;
pub mod curve;
pub mod expr;
pub mod ieee;
pub mod model;
pub mod params;
