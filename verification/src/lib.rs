//! Lifecycle management for a single auxiliary server process.
//!
//! The library has two halves. The layout resolver ([`layout`]) decides,
//! from the results of a fixed set of filesystem existence probes, where the
//! companion server's entry script and working directory live across the
//! deployment layouts the application ships in. The process supervisor
//! ([`supervisor`]) owns the single handle slot for the spawned process:
//! it records the outcome of the spawn and hands out exactly one
//! termination signal at shutdown. All filesystem probing, spawning and
//! printing is left to the host shell around the library, which feeds the
//! results in as plain values.

pub mod diag;
pub mod layout;
pub mod supervisor;
