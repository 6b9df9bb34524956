//! A single-writer, many-reader snapshot register.
//!
//! One owner ([`Blockfree`]) publishes values; any number of readers
//! ([`Replica`]) take snapshots without waiting. A reader that overlaps a
//! write reports no value instead of a torn one.
pub mod register;
mod slot;
pub mod version;

pub use register::{Blockfree, Replica};
