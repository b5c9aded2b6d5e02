//! Lifecycle rules for a single supervised backend process.
//!
//! The crate decides; its caller performs. Spawning and killing an operating
//! system process are left to the caller, who reports how each attempt ended.
//! What is held, what is replied and what has to be done next is settled here.

pub mod status;
pub mod launch;
pub mod supervisor;
pub mod calls;
