//! Golden-file testing: freshly produced artifacts are staged, then either
//! compared against checked-in reference copies or written over them.
//!
//! The library holds the decisions of that cycle as verified functions over
//! plain values: which comparison a file gets, how two contents compare and
//! what the failure says, which artifacts may be registered, and what the
//! final check or update has to do for every registered artifact.
pub mod differs;
pub mod mint;
pub mod paths;
pub mod text;

pub use crate::mint::Mint;
