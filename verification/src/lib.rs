//! A trait-resolution engine for a Rust-like nominal type system: programs
//! of struct, trait and impl declarations are lowered to a clause database,
//! and goals about trait membership are decided by depth-first proof search
//! with unification, backtracking and universes for parametricity.
//!
//! The crate is laid out leaves first: `ir` holds the term representation
//! and substitution; `parse` reads surface text into an abstract syntax
//! tree; `lower` resolves names and turns impls into clauses; `unify` is the
//! structural unifier with its occurs and universe checks and the undo
//! discipline; `solve` is the search; `render` gives the canonical strings;
//! `api` ties text to outcome; `laws` states and proves the engine's
//! cross-cutting properties.
//!
//! Every executable function of the engine returns exactly what a spec
//! function of its inputs describes, so a solve is a mathematical function
//! of the program and the goal. A `Program` is immutable once built and is
//! passed by reference into every solve; independent solves share nothing
//! else, so they may run on separate threads.

pub mod api;
pub mod ir;
pub mod laws;
pub mod lower;
pub mod parse;
pub mod render;
pub mod solve;
pub mod unify;

use vstd::prelude::*;

verus! {

/// The default bound on proof-search depth; exceeding it yields an
/// `Overflow` outcome instead of divergence.
pub const OVERFLOW_DEPTH: usize = 30;

} // verus!
