//! Comparison assertions whose failures are reported with both the value and
//! the source text of every operand.
//!
//! The library decides whether a relation holds on what was observed of its
//! operands, names every construct of the assertion surface, decides whether a
//! debug-gated construct runs at all, and writes the exact text of the
//! diagnostic that a failed assertion raises.

pub mod assertion;
pub mod construct;
pub mod laws;
pub mod relation;
pub mod report;
