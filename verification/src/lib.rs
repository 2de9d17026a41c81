//! Driving an npm-compatible registry command-line tool: packaging an
//! artifact, publishing it with an optional access policy, and logging in
//! interactively against a registry.
//!
//! The library builds the full invocation plan for each operation (argument
//! list, working directory, execution mode) and classifies the outcome of the
//! spawned process into a typed result. Spawning the process itself is left
//! to the caller, who runs the plan and reports back what happened.

use vstd::prelude::*;

pub mod access;
pub mod laws;
pub mod outcome;
pub mod plan;

verus! {

/// The default npm registry used when we aren't working with a custom registry.
pub const DEFAULT_NPM_REGISTRY: &'static str = "https://registry.npmjs.org/";

} // verus!
