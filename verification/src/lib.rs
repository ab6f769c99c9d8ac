//! Lifecycle orchestration for single-purpose game-server containers.
//!
//! The library decides; it never touches the network. Every lifecycle
//! operation takes the container engine as a function from an
//! [`engine::EngineCall`] to an [`engine::EngineReply`], hands it the calls in
//! order, and turns each answer into a handle, a list of log lines or a member
//! of the error taxonomy.
use vstd::prelude::*;

pub mod text;
pub mod command;
pub mod error;
pub mod options;
pub mod engine;
pub mod service;
pub mod laws;
pub mod server;
pub mod worker;

verus! {

/// The port the workload listens on inside its container, and the host port
/// used when none is chosen.
pub const DEFAULT_MC_PORT: u32 = 25565;

} // verus!
