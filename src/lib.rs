//! Resolves a package specifier to the latest published version of its
//! package and writes the canonical specifier back out.
//!
//! The library holds the decisions: how a raw specifier is split into the
//! package that a registry knows and the subpath inside it, which registry is
//! asked and at which address, and how the answer is written. Fetching the
//! answer is left to the caller.
pub mod specifier;
pub mod resolve;
