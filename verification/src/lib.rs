//! A facade over the `buildah` command line that performs no I/O itself.
//!
//! Every operation is split in two. The first half says which invocation of
//! the tool the operation needs; the second half turns what the tool answered
//! into a typed result. Running the process between the two is left to the
//! caller, so that both halves are plain functions with exact contracts.

pub mod buildah_error;
pub mod executor;
pub mod parsing;
pub mod image;
pub mod mount;
pub mod container;
pub mod decimal;
