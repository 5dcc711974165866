//! The compile-and-patch pass.
//!
//! Per trigger the pass walks `Idle -> Compiling -> Patching -> Assembling
//! -> Building -> Publishing -> Idle`; any step's failure returns straight
//! to `Idle` with no partial state retained and nothing published. A
//! per-module memory-model-normalization failure only skips that module;
//! every other failure aborts the whole pass.

use crate::errors::{PassError, PatchErrorKind};
use crate::module::{
    assemble, assembled_with_body, clone_module, le_bytes_of, normalizable,
    normalize_memory_model, serialize_words, substitute, AddressingModel, CompiledModule,
    MemoryModel, Module,
};
use crate::patcher::{Patcher, ShaderModuleHandle};
use vstd::prelude::*;

verus! {

/// Stage of the compile-and-patch state machine.
#[derive(Clone, Copy, PartialEq, Eq, Structural, Debug)]
pub enum Phase {
    Idle,
    Compiling,
    Patching,
    Assembling,
    Building,
    Publishing,
}

/// The stage a successful step leads to; a finished publish returns to
/// `Idle`.
pub open spec fn phase_successor(p: Phase) -> Phase {
    match p {
        Phase::Idle => Phase::Compiling,
        Phase::Compiling => Phase::Patching,
        Phase::Patching => Phase::Assembling,
        Phase::Assembling => Phase::Building,
        Phase::Building => Phase::Publishing,
        Phase::Publishing => Phase::Idle,
    }
}

/// Advances the pass state machine one step: success moves to the next
/// stage, any failure returns straight to `Idle`.
pub fn next_phase(p: Phase, step_ok: bool) -> (q: Phase)
    ensures
        step_ok ==> q == phase_successor(p),
        !step_ok ==> q is Idle,
{
    if step_ok {
        match p {
            Phase::Idle => Phase::Compiling,
            Phase::Compiling => Phase::Patching,
            Phase::Patching => Phase::Assembling,
            Phase::Assembling => Phase::Building,
            Phase::Building => Phase::Publishing,
            Phase::Publishing => Phase::Idle,
        }
    } else {
        Phase::Idle
    }
}

/// The execution environment requires this addressing model.
pub open spec fn required_addressing() -> AddressingModel {
    AddressingModel::Logical
}

/// The execution environment requires this memory model.
pub open spec fn required_memory() -> MemoryModel {
    MemoryModel::Vulkan
}

/// The source compiler emits this addressing model by default.
pub open spec fn emitted_addressing() -> AddressingModel {
    AddressingModel::Logical
}

/// The source compiler emits this memory model by default.
pub open spec fn emitted_memory() -> MemoryModel {
    MemoryModel::Glsl450
}

/// Whether one compiled module's declared models can be normalized to the
/// required pair.
pub open spec fn normalizable_to_required(m: CompiledModule) -> bool {
    normalizable(
        m,
        emitted_addressing(),
        emitted_memory(),
        required_addressing(),
        required_memory(),
    )
}

/// How the patch step of a pass failed, by symbol.
pub enum PatchFault {
    /// A compiled module named a symbol the baseline does not expect.
    Unknown { symbol: Seq<char> },
    /// A compiled module's signature differs from the baseline's.
    Signature { symbol: Seq<char> },
}

/// The patchable function's body after the whole pass, folded left over the
/// compiled modules: a module that cannot be normalized is skipped, a
/// symbol or signature mismatch aborts the pass, and a matching module
/// replaces the body.
pub open spec fn pass_body_spec(
    symbol: Seq<char>,
    signature: Seq<u32>,
    body: Seq<u32>,
    ms: Seq<CompiledModule>,
) -> Result<Seq<u32>, PatchFault>
    decreases ms.len(),
{
    if ms.len() == 0 {
        Ok(body)
    } else {
        let m = ms[0];
        let rest = ms.subrange(1, ms.len() as int);
        if !normalizable_to_required(m) {
            pass_body_spec(symbol, signature, body, rest)
        } else if m.symbol@ != symbol {
            Err(PatchFault::Unknown { symbol: m.symbol@ })
        } else if m.signature@ != signature {
            Err(PatchFault::Signature { symbol: m.symbol@ })
        } else {
            pass_body_spec(symbol, signature, m.body@, rest)
        }
    }
}

/// Whether a pass error reports exactly the given patch fault.
pub open spec fn patch_fault_matches(e: PassError, f: PatchFault) -> bool {
    match f {
        PatchFault::Unknown { symbol } => e matches PassError::Patch {
            kind: PatchErrorKind::UnknownSymbol,
            symbol: s,
        } && s@ == symbol,
        PatchFault::Signature { symbol } => e matches PassError::Patch {
            kind: PatchErrorKind::SignatureMismatch,
            symbol: s,
        } && s@ == symbol,
    }
}

/// The patch step of one pass: normalizes each compiled module's memory
/// model (skipping modules that cannot be normalized), substitutes each
/// remaining module's function body into the baseline template keyed by
/// symbol name, and aborts the whole pass on the first substitution
/// failure. The baseline itself is never modified.
#[verifier::loop_isolation(false)]
pub fn run_pass(baseline: &Module, modules: Vec<CompiledModule>) -> (r: Result<Module, PassError>)
    requires
        baseline.wf(),
        forall|j: int| 0 <= j < modules@.len() ==> (#[trigger] modules@[j]).wf(),
    ensures
        r is Ok <==> pass_body_spec(
            baseline.symbol@,
            baseline.signature@,
            baseline.body@,
            modules@,
        ) is Ok,
        r matches Ok(p) ==> {
            &&& p.addressing == baseline.addressing
            &&& p.memory == baseline.memory
            &&& p.bindings@ == baseline.bindings@
            &&& p.symbol@ == baseline.symbol@
            &&& p.signature@ == baseline.signature@
            &&& Ok::<Seq<u32>, PatchFault>(p.body@) == pass_body_spec(
                baseline.symbol@,
                baseline.signature@,
                baseline.body@,
                modules@,
            )
            &&& p.wf()
        },
        r matches Err(e) ==> (pass_body_spec(
            baseline.symbol@,
            baseline.signature@,
            baseline.body@,
            modules@,
        ) matches Err(f) && patch_fault_matches(e, f)),
{
    let mut mods = modules;
    let mut current = clone_module(baseline);
    let ghost all = mods@;
    while mods.len() > 0
        invariant
            baseline.wf(),
            current.wf(),
            current.addressing == baseline.addressing,
            current.memory == baseline.memory,
            current.bindings@ == baseline.bindings@,
            current.symbol@ == baseline.symbol@,
            current.signature@ == baseline.signature@,
            forall|j: int| 0 <= j < mods@.len() ==> (#[trigger] mods@[j]).wf(),
            pass_body_spec(baseline.symbol@, baseline.signature@, baseline.body@, all)
                == pass_body_spec(baseline.symbol@, baseline.signature@, current.body@, mods@),
        decreases mods@.len(),
    {
        let ghost pre_mods = mods@;
        let ghost pre_body = current.body@;
        let mut m = mods.remove(0);
        let ghost m0 = m;
        proof {
            assert(mods@ =~= pre_mods.subrange(1, pre_mods.len() as int));
        }
        match normalize_memory_model(
            &mut m,
            AddressingModel::Logical,
            MemoryModel::Glsl450,
            AddressingModel::Logical,
            MemoryModel::Vulkan,
        ) {
            Err(_) => {
                // this module alone is skipped; its siblings still go through
            },
            Ok(()) => {
                match substitute(&current, &m) {
                    Ok(p) => {
                        current = p;
                    },
                    Err(e) => {
                        proof {
                            assert(normalizable_to_required(m0));
                            if m0.symbol@ != baseline.symbol@ {
                                assert(pass_body_spec(
                                    baseline.symbol@,
                                    baseline.signature@,
                                    pre_body,
                                    pre_mods,
                                ) == Err::<Seq<u32>, PatchFault>(PatchFault::Unknown {
                                    symbol: m0.symbol@,
                                }));
                            } else {
                                assert(pass_body_spec(
                                    baseline.symbol@,
                                    baseline.signature@,
                                    pre_body,
                                    pre_mods,
                                ) == Err::<Seq<u32>, PatchFault>(PatchFault::Signature {
                                    symbol: m0.symbol@,
                                }));
                            }
                        }
                        return Err(e);
                    },
                }
            },
        }
    }
    proof {
        assert(pass_body_spec(baseline.symbol@, baseline.signature@, current.body@, mods@)
            == Ok::<Seq<u32>, PatchFault>(current.body@));
    }
    Ok(current)
}

/// One whole compile-and-patch pass, from the source compiler's verdict to
/// the publish: patches the baseline template, serializes the patched
/// module, accepts the graphics runtime's verdict on building the
/// shader-module object, and publishes the handle on the handoff channel.
/// Whatever step fails, nothing is published and the error says which step
/// it was; the render thread keeps its previous pipeline.
pub fn complete_pass(
    patcher: &mut Patcher,
    baseline: &Module,
    compile_result: Result<Vec<CompiledModule>, String>,
    module_build_ok: bool,
) -> (r: Result<(), PassError>)
    requires
        baseline.wf(),
        compile_result matches Ok(ms) ==> forall|j: int|
            0 <= j < ms@.len() ==> (#[trigger] ms@[j]).wf(),
    ensures
        final(patcher).connected == old(patcher).connected,
        r is Err ==> final(patcher).queue@ == old(patcher).queue@,
        compile_result matches Err(msg) ==> (r matches Err(e)
            && e matches PassError::Compile { message } && message@ == msg@),
        compile_result matches Ok(ms) ==> {
            let pass = pass_body_spec(
                baseline.symbol@,
                baseline.signature@,
                baseline.body@,
                ms@,
            );
            &&& (pass matches Err(f) ==> (r matches Err(e) && patch_fault_matches(e, f)))
            &&& (pass is Ok && !module_build_ok ==> (r matches Err(e) && e is ModuleBuild))
            &&& (pass is Ok && module_build_ok && !old(patcher).connected ==> (r matches Err(e)
                && e is ChannelDisconnected))
            &&& (pass matches Ok(body) ==> (module_build_ok && old(patcher).connected ==> {
                &&& r is Ok
                &&& final(patcher).queue@.len() == old(patcher).queue@.len() + 1
                &&& final(patcher).queue@.drop_last() == old(patcher).queue@
                &&& final(patcher).queue@.last().code@ == le_bytes_of(
                    assembled_with_body(*baseline, body),
                )
            }))
        },
{
    let modules = match compile_result {
        Err(message) => {
            return Err(PassError::Compile { message });
        },
        Ok(ms) => ms,
    };
    let patched = match run_pass(baseline, modules) {
        Err(e) => {
            return Err(e);
        },
        Ok(p) => p,
    };
    let words = assemble(&patched);
    let code = serialize_words(&words);
    proof {
        assert(crate::module::assemble_spec(patched)
            =~= assembled_with_body(*baseline, patched.body@));
    }
    if !module_build_ok {
        return Err(PassError::ModuleBuild);
    }
    let handle = ShaderModuleHandle { code };
    match patcher.send(handle) {
        Err(e) => Err(e),
        Ok(()) => Ok(()),
    }
}

} // verus!
