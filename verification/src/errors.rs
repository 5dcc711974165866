//! Error taxonomy of the patch subsystem.
//!
//! No error defined here ever reaches the render thread: the render thread
//! only observes "no update" or a valid new shader-module handle.

use crate::Severity;
use vstd::prelude::*;

verus! {

/// Why a function-body substitution was refused by the patch step.
#[derive(Clone, Copy, PartialEq, Eq, Structural, Debug)]
pub enum PatchErrorKind {
    /// The compiled module names a symbol the baseline does not expect.
    UnknownSymbol,
    /// The compiled module's function signature differs from the baseline's.
    SignatureMismatch,
}

/// Why rewriting one compiled module's declared memory model failed. Such a
/// failure skips only that module; sibling modules of the same pass still go
/// through.
#[derive(Clone, Copy, PartialEq, Eq, Structural, Debug)]
pub enum NormalizeError {
    /// The module declares a model pair that is neither the expected emitted
    /// one nor the required one.
    UnsupportedModel,
}

/// Everything that can stop a compile-and-patch pass, or the process.
#[derive(Debug)]
pub enum PassError {
    /// The watched source file did not exist at startup (fatal).
    SourceMissing,
    /// The source compiler rejected the edited file.
    Compile { message: String },
    /// Function-body substitution into the baseline failed; carries the
    /// offending symbol name.
    Patch { kind: PatchErrorKind, symbol: String },
    /// The graphics runtime refused to build a shader module from the
    /// serialized patched module.
    ModuleBuild,
    /// The graphics runtime refused to build a pipeline from a module handle.
    PipelineBuild,
    /// The handoff channel's receiver is gone: hot reloading is lost for the
    /// rest of the process, rendering continues on the last good pipeline.
    ChannelDisconnected,
}

impl PassError {
    /// How the process reacts to this error.
    pub fn severity(&self) -> (s: Severity)
        ensures
            s == Severity::Fatal <==> self is SourceMissing,
            s == Severity::Degraded <==> self is ChannelDisconnected,
            s == Severity::Recoverable <==> !(self is SourceMissing)
                && !(self is ChannelDisconnected),
    {
        match self {
            PassError::SourceMissing => Severity::Fatal,
            PassError::ChannelDisconnected => Severity::Degraded,
            _ => Severity::Recoverable,
        }
    }
}

} // verus!
