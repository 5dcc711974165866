//! System-wide laws of the patch subsystem, stated and proved over the
//! specifications the component contracts use.

use crate::orchestrator::{pass_body_spec, PatchFault};
use crate::module::CompiledModule;
use crate::st_pass::{dispatch_inputs, SphereTracing};
use crate::uniform::uniform_words;
use vstd::prelude::*;

verus! {

/// Two frames rendered with the same pipeline, the same uniform words and
/// the same target extent hand the GPU bit-identical dispatches. In
/// particular, two consecutive frames with no file change and identical
/// uniform input produce bit-identical dispatch output.
pub proof fn lemma_frame_dispatch_deterministic(a: SphereTracing, b: SphereTracing)
    requires
        a.pipeline.module_code@ == b.pipeline.module_code@,
        a.pipeline.layout == b.pipeline.layout,
        uniform_words(a.pc) == uniform_words(b.pc),
        a.target_image.extent == b.target_image.extent,
    ensures
        dispatch_inputs(a) == dispatch_inputs(b),
{
}

/// Applying one successful pass's compiled modules a second time, now to
/// the already patched body, reproduces exactly that body: a no-op touch
/// that recompiles to byte-identical output publishes a byte-identical
/// module, so the rebuilt pipeline dispatches bit-identically.
pub proof fn lemma_pass_idempotent(
    symbol: Seq<char>,
    signature: Seq<u32>,
    body: Seq<u32>,
    once: Seq<u32>,
    ms: Seq<CompiledModule>,
)
    requires
        pass_body_spec(symbol, signature, body, ms) == Ok::<Seq<u32>, PatchFault>(once),
    ensures
        pass_body_spec(symbol, signature, once, ms) == Ok::<Seq<u32>, PatchFault>(once),
    decreases ms.len(),
{
    if ms.len() == 0 {
        // an empty pass leaves any body alone
    } else {
        let m = ms[0];
        let rest = ms.subrange(1, ms.len() as int);
        if !crate::orchestrator::normalizable_to_required(m) {
            lemma_pass_idempotent(symbol, signature, body, once, rest);
        }
        // otherwise the pass succeeded, so the symbol and signature match
        // and both folds continue from this module's body, independent of
        // what they started from
    }
}

} // verus!
