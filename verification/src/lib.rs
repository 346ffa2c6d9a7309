//! A builder for chaining external commands so that the output of one process
//! feeds the input of the next, the way a shell pipeline does.
//!
//! The library is the decision layer of such a pipeline: it tokenizes command
//! strings, tracks the `Spawned`/`Failed` state of the chain, and says for
//! every chaining step whether a process is to be spawned (and with which
//! program, arguments and input wiring) or the chain's first failure is to be
//! carried forward. Performing the spawns themselves is left to an unverified
//! shell around the library, which hands the outcome of each spawn back as a
//! plain event.

pub mod tokens;
pub mod pipe;
pub mod laws;
