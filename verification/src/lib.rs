//! Core of a live shader hot-patching renderer.
//!
//! The library watches for edits of a distance-field source file (debounced),
//! splices freshly compiled function bodies into an immutable baseline binary
//! module, serializes the patched module, and hands the result over a
//! single-producer/single-consumer channel to a render loop that rebuilds its
//! compute pipeline at most once per poll and never stalls on the patch
//! subsystem.

pub mod camera;
pub mod errors;
pub mod geometry;
pub mod laws;
pub mod module;
pub mod offset_entity;
pub mod orchestrator;
pub mod patcher;
pub mod st_pass;
pub mod uniform;
pub mod watcher;

use vstd::prelude::*;

verus! {

/// Severity classes of pass failures: a fatal error ends the process, a
/// recoverable one leaves the previous pipeline active, and a degraded one
/// permanently disables hot reloading while rendering continues.
#[derive(Clone, Copy, PartialEq, Eq, Structural, Debug)]
pub enum Severity {
    Fatal,
    Recoverable,
    Degraded,
}

} // verus!
