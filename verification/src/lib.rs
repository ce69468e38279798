//! Host-side protocol for driving an embedded chain runtime across a foreign
//! boundary.
//!
//! - [`envelope`]: the tagged result envelope in which every answer crosses
//!   the boundary, and its decoder.
//! - [`response`]: the canonical execution result, and the normalization of
//!   the two chain-native response shapes into it.
//! - [`runner`]: the dispatch abstraction, `execute` and `query`.
//! - [`module`]: the operations of the chain modules, each bound to its
//!   type-url or query path.
//! - [`error`]: what a caller can get back in place of a result.

pub mod envelope;
pub mod error;
pub mod module;
pub mod response;
pub mod runner;
