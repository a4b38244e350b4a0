//! Build-time propagation of plugin "global API script" paths.
//!
//! A *provider* build unit publishes the location of a generated script,
//! relative to a shared output base, as a single key/value directive on the
//! build orchestrator's environment channel. A *dependent* build unit
//! aggregates every such directive from its inherited environment snapshot
//! into an ordered on-disk manifest, and later reads the manifest back to
//! load every listed script.
//!
//! The three operations are pure functions over explicit inputs (an
//! environment snapshot, already-canonicalized paths, manifest text); the
//! surrounding process — environment capture, path canonicalization, file
//! reads and writes — is left to the embedding build script.

use vstd::prelude::*;

pub mod aggregate;
pub mod codec;
pub mod env;
pub mod error;
pub mod laws;
pub mod paths;
pub mod publish;
pub mod read;

verus! {

/// Known file name of the manifest that holds the aggregated list of
/// script paths, inside a dependent's output directory.
pub const GLOBAL_API_SCRIPT_FILE_LIST_PATH: &'static str = "__global-api-script.js";

} // verus!
