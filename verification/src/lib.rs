//! Validation of fixed-length, prefix-tagged identifier strings.
//!
//! An identifier is a string of exactly 56 Unicode scalar values that begins
//! with a fixed prefix: a single character for plain identifiers, or `S`
//! followed by a character for seeds. This crate checks candidates against
//! those rules and wraps accepted strings in typed containers.

pub mod id;

pub use id::Id;
pub use id::IdParseError;
pub use id::Seed;
