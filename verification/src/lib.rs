//! Verified core of a counter program and of the client protocol that
//! drives it: payload encoding, loader-state inspection, and the
//! submit/confirm state machines.

pub mod address;
pub mod batch;
pub mod confirm;
pub mod funding;
pub mod loader;
pub mod payload;
pub mod program;
pub mod resolver;

pub use crate::program::process_instruction;
