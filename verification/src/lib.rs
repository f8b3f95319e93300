//! Signature transformation and mock synthesis engine.
//!
//! Given a description of a method declaration, this library produces the
//! derived artifacts needed to emit a mock implementation: a classification
//! of the call shape, rewritten type expressions, merged generic parameter
//! sets, and recomputed visibilities.  Every transformation is a pure
//! function over immutable syntax trees, specified and verified.

pub mod ast;
pub mod classify;
pub mod generics;
pub mod laws;
pub mod lift;
pub mod names;
pub mod normalize;
pub mod rewrite;
pub mod shape;
pub mod substitute;
pub mod util;
pub mod visibility;
