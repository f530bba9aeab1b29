//! Metadata core of a cost-guided equality-saturation optimizer for
//! symbolic mathematical expressions.
//!
//! The crate supplies the term vocabulary, a structural cost model, an
//! exact constant-folding evaluator over arbitrary-precision rationals,
//! and the `make` / `merge` / `modify` protocol through which a hosting
//! saturation engine maintains, per equivalence class, the cheapest known
//! representative expression together with its cost.
pub mod rat;
pub mod vocab;
pub mod expr;
pub mod eval;
pub mod meta;
pub mod pattern;
pub mod rules;
pub mod corpus;
