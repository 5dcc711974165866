//! In-memory model of the binary shader modules that the patch subsystem
//! works on.
//!
//! A [`Module`] is either the immutable baseline template linked at build
//! time or a patched derivative of it. A [`CompiledModule`] is what one
//! compile pass emits for one entry symbol. Patching replaces exactly the
//! named function's instruction body; the signature, the resource bindings
//! and the entry metadata of the baseline are preserved verbatim.

use crate::errors::{NormalizeError, PassError, PatchErrorKind};
use vstd::prelude::*;

verus! {

/// Magic number leading every serialized module.
pub const MODULE_MAGIC: u32 = 0x0723_0203;

/// Declared addressing model of a binary module.
#[derive(Clone, Copy, PartialEq, Eq, Structural, Debug)]
pub enum AddressingModel {
    Logical,
    Physical32,
    Physical64,
}

/// Declared memory model of a binary module.
#[derive(Clone, Copy, PartialEq, Eq, Structural, Debug)]
pub enum MemoryModel {
    Simple,
    Glsl450,
    Vulkan,
}

/// A fully linked binary module: the baseline template, or the baseline with
/// the patchable function's body replaced.
pub struct Module {
    /// Declared addressing model.
    pub addressing: AddressingModel,
    /// Declared memory model.
    pub memory: MemoryModel,
    /// Resource bindings, decorations and entry-point metadata; preserved
    /// verbatim by every patch.
    pub bindings: Vec<u32>,
    /// Name of the one patchable entry point.
    pub symbol: String,
    /// Signature words of the patchable function; a patch must keep them.
    pub signature: Vec<u32>,
    /// Instruction body of the patchable function; the only part a patch
    /// replaces.
    pub body: Vec<u32>,
}

/// One named raw module emitted by the source compiler for one entry symbol.
pub struct CompiledModule {
    /// Entry symbol this module implements.
    pub symbol: String,
    /// Declared addressing model as emitted.
    pub addressing: AddressingModel,
    /// Declared memory model as emitted.
    pub memory: MemoryModel,
    /// Signature words of the emitted function.
    pub signature: Vec<u32>,
    /// Instruction body of the emitted function.
    pub body: Vec<u32>,
}

impl Module {
    /// All counted parts fit in one serialization length word each.
    pub open spec fn wf(self) -> bool {
        &&& self.bindings@.len() <= u32::MAX
        &&& self.symbol@.len() <= u32::MAX
        &&& self.signature@.len() <= u32::MAX
        &&& self.body@.len() <= u32::MAX
    }
}

impl CompiledModule {
    /// All counted parts fit in one serialization length word each.
    pub open spec fn wf(self) -> bool {
        &&& self.symbol@.len() <= u32::MAX
        &&& self.signature@.len() <= u32::MAX
        &&& self.body@.len() <= u32::MAX
    }
}

/// Whether a compiled module's declared models can be rewritten from the
/// given source pair to the given target pair: it must declare either the
/// source pair or already the target pair.
pub open spec fn normalizable(
    m: CompiledModule,
    from_addressing: AddressingModel,
    from_memory: MemoryModel,
    to_addressing: AddressingModel,
    to_memory: MemoryModel,
) -> bool {
    ||| (m.addressing == from_addressing && m.memory == from_memory)
    ||| (m.addressing == to_addressing && m.memory == to_memory)
}

/// Rewrites the declared addressing/memory model of one compiled module to
/// the execution environment's required model. Fails, leaving the module
/// untouched, when the module declares a model pair that is neither the
/// expected emitted one nor already the required one.
pub fn normalize_memory_model(
    m: &mut CompiledModule,
    from_addressing: AddressingModel,
    from_memory: MemoryModel,
    to_addressing: AddressingModel,
    to_memory: MemoryModel,
) -> (r: Result<(), NormalizeError>)
    ensures
        r is Ok <==> normalizable(*old(m), from_addressing, from_memory, to_addressing, to_memory),
        r is Ok ==> final(m).addressing == to_addressing && final(m).memory == to_memory,
        r is Err ==> *final(m) == *old(m),
        final(m).symbol@ == old(m).symbol@,
        final(m).signature@ == old(m).signature@,
        final(m).body@ == old(m).body@,
{
    let declares_source = m.addressing == from_addressing && m.memory == from_memory;
    let declares_target = m.addressing == to_addressing && m.memory == to_memory;
    if declares_source || declares_target {
        m.addressing = to_addressing;
        m.memory = to_memory;
        Ok(())
    } else {
        Err(NormalizeError::UnsupportedModel)
    }
}

/// Replaces the baseline's patchable function body with a compiled module's
/// body, keyed by symbol name. Refuses a module whose symbol is not the
/// baseline's one expected entry point, or whose signature differs; on
/// refusal the baseline is untouched and the error names the symbol.
pub fn substitute(baseline: &Module, m: &CompiledModule) -> (r: Result<Module, PassError>)
    ensures
        r is Ok <==> m.symbol@ == baseline.symbol@ && m.signature@ == baseline.signature@,
        r matches Ok(p) ==> {
            &&& p.addressing == baseline.addressing
            &&& p.memory == baseline.memory
            &&& p.bindings@ == baseline.bindings@
            &&& p.symbol@ == baseline.symbol@
            &&& p.signature@ == baseline.signature@
            &&& p.body@ == m.body@
        },
        m.symbol@ != baseline.symbol@ ==> (r matches Err(e)
            && e matches PassError::Patch { kind, symbol }
            && kind == PatchErrorKind::UnknownSymbol && symbol@ == m.symbol@),
        m.symbol@ == baseline.symbol@ && m.signature@ != baseline.signature@ ==> (r matches Err(e)
            && e matches PassError::Patch { kind, symbol }
            && kind == PatchErrorKind::SignatureMismatch && symbol@ == m.symbol@),
{
    if !(m.symbol == baseline.symbol) {
        return Err(PassError::Patch {
            kind: PatchErrorKind::UnknownSymbol,
            symbol: m.symbol.clone(),
        });
    }
    if !vec_u32_eq(&m.signature, &baseline.signature) {
        return Err(PassError::Patch {
            kind: PatchErrorKind::SignatureMismatch,
            symbol: m.symbol.clone(),
        });
    }
    Ok(Module {
        addressing: baseline.addressing,
        memory: baseline.memory,
        bindings: clone_words(&baseline.bindings),
        symbol: baseline.symbol.clone(),
        signature: clone_words(&baseline.signature),
        body: clone_words(&m.body),
    })
}

/// Serialization word for an addressing model.
pub open spec fn addressing_word(a: AddressingModel) -> u32 {
    match a {
        AddressingModel::Logical => 0,
        AddressingModel::Physical32 => 1,
        AddressingModel::Physical64 => 2,
    }
}

/// Serialization word for a memory model.
pub open spec fn memory_word(m: MemoryModel) -> u32 {
    match m {
        MemoryModel::Simple => 0,
        MemoryModel::Glsl450 => 1,
        MemoryModel::Vulkan => 3,
    }
}

/// Computes [`addressing_word`].
pub fn encode_addressing(a: AddressingModel) -> (w: u32)
    ensures
        w == addressing_word(a),
{
    match a {
        AddressingModel::Logical => 0,
        AddressingModel::Physical32 => 1,
        AddressingModel::Physical64 => 2,
    }
}

/// Computes [`memory_word`].
pub fn encode_memory(m: MemoryModel) -> (w: u32)
    ensures
        w == memory_word(m),
{
    match m {
        MemoryModel::Simple => 0,
        MemoryModel::Glsl450 => 1,
        MemoryModel::Vulkan => 3,
    }
}

/// The word stream a module serializes to: magic, the two model words, then
/// each counted section (bindings, symbol characters, signature, body) with
/// a leading length word.
pub open spec fn assemble_spec(m: Module) -> Seq<u32> {
    seq![MODULE_MAGIC, addressing_word(m.addressing), memory_word(m.memory)]
        + seq![m.bindings@.len() as u32] + m.bindings@
        + seq![m.symbol@.len() as u32] + Seq::new(m.symbol@.len(), |i: int| m.symbol@[i] as u32)
        + seq![m.signature@.len() as u32] + m.signature@
        + seq![m.body@.len() as u32] + m.body@
}

/// Serializes a patched (or baseline) module to its binary word stream.
pub fn assemble(m: &Module) -> (r: Vec<u32>)
    requires
        m.wf(),
    ensures
        r@ == assemble_spec(*m),
{
    let mut out: Vec<u32> = Vec::new();
    out.push(MODULE_MAGIC);
    out.push(encode_addressing(m.addressing));
    out.push(encode_memory(m.memory));
    out.push(m.bindings.len() as u32);
    append_words(&mut out, &m.bindings);
    let sym = m.symbol.as_str();
    let sym_len = sym.unicode_len();
    out.push(sym_len as u32);
    let mut i: usize = 0;
    while i < sym_len
        invariant
            i <= sym_len,
            sym_len == m.symbol@.len(),
            sym@ == m.symbol@,
            out@ == seq![MODULE_MAGIC, addressing_word(m.addressing), memory_word(m.memory)]
                + seq![m.bindings@.len() as u32] + m.bindings@
                + seq![m.symbol@.len() as u32]
                + Seq::new(i as nat, |j: int| m.symbol@[j] as u32),
        decreases sym_len - i,
    {
        let c = sym.get_char(i);
        out.push(c as u32);
        proof {
            assert(out@ =~= seq![MODULE_MAGIC, addressing_word(m.addressing), memory_word(m.memory)]
                + seq![m.bindings@.len() as u32] + m.bindings@
                + seq![m.symbol@.len() as u32]
                + Seq::new((i + 1) as nat, |j: int| m.symbol@[j] as u32));
        }
        i += 1;
    }
    out.push(m.signature.len() as u32);
    append_words(&mut out, &m.signature);
    out.push(m.body.len() as u32);
    append_words(&mut out, &m.body);
    proof {
        assert(out@ =~= assemble_spec(*m));
    }
    out
}

/// The word stream of a module equal to `b` everywhere but in the
/// patchable function's body, which is `body`.
pub open spec fn assembled_with_body(b: Module, body: Seq<u32>) -> Seq<u32> {
    seq![MODULE_MAGIC, addressing_word(b.addressing), memory_word(b.memory)]
        + seq![b.bindings@.len() as u32] + b.bindings@
        + seq![b.symbol@.len() as u32] + Seq::new(b.symbol@.len(), |i: int| b.symbol@[i] as u32)
        + seq![b.signature@.len() as u32] + b.signature@
        + seq![body.len() as u32] + body
}

/// An exact copy of a module.
pub fn clone_module(m: &Module) -> (r: Module)
    ensures
        r.addressing == m.addressing,
        r.memory == m.memory,
        r.bindings@ == m.bindings@,
        r.symbol@ == m.symbol@,
        r.signature@ == m.signature@,
        r.body@ == m.body@,
{
    Module {
        addressing: m.addressing,
        memory: m.memory,
        bindings: clone_words(&m.bindings),
        symbol: m.symbol.clone(),
        signature: clone_words(&m.signature),
        body: clone_words(&m.body),
    }
}

/// The little-endian byte stream of a word stream: four bytes per word,
/// least significant first.
pub open spec fn le_bytes_of(ws: Seq<u32>) -> Seq<u8> {
    Seq::new(4 * ws.len(), |i: int| word_byte(ws[i / 4], i % 4))
}

/// Byte `k` (0 = least significant) of a word.
pub open spec fn word_byte(w: u32, k: int) -> u8 {
    if k == 0 {
        (w & 0xff) as u8
    } else if k == 1 {
        (w >> 8u32 & 0xff) as u8
    } else if k == 2 {
        (w >> 16u32 & 0xff) as u8
    } else {
        (w >> 24u32 & 0xff) as u8
    }
}

/// Serializes a word stream to the little-endian byte stream a shader-module
/// object is built from.
pub fn serialize_words(ws: &Vec<u32>) -> (r: Vec<u8>)
    ensures
        r@ == le_bytes_of(ws@),
{
    let mut out: Vec<u8> = Vec::new();
    let n = ws.len();
    let mut i: usize = 0;
    while i < n
        invariant
            i <= n,
            n == ws@.len(),
            out@ == le_bytes_of(ws@.subrange(0, i as int)),
        decreases n - i,
    {
        let w = ws[i];
        out.push(w as u8);
        out.push((w >> 8u32) as u8);
        out.push((w >> 16u32) as u8);
        out.push((w >> 24u32) as u8);
        proof {
            assert(w as u8 == word_byte(w, 0)) by (bit_vector);
            assert((w >> 8u32) as u8 == word_byte(w, 1)) by (bit_vector);
            assert((w >> 16u32) as u8 == word_byte(w, 2)) by (bit_vector);
            assert((w >> 24u32) as u8 == word_byte(w, 3)) by (bit_vector);
            assert(out@ =~= le_bytes_of(ws@.subrange(0, i as int + 1)));
        }
        i += 1;
    }
    proof {
        assert(ws@.subrange(0, n as int) =~= ws@);
    }
    out
}

/// Appends every word of `tail` to `out`, in order.
pub fn append_words(out: &mut Vec<u32>, tail: &Vec<u32>)
    ensures
        final(out)@ == old(out)@ + tail@,
{
    let n = tail.len();
    let mut i: usize = 0;
    while i < n
        invariant
            i <= n,
            n == tail@.len(),
            out@ == old(out)@ + tail@.subrange(0, i as int),
        decreases n - i,
    {
        out.push(tail[i]);
        proof {
            assert(old(out)@ + tail@.subrange(0, i as int + 1) =~= out@);
        }
        i += 1;
    }
    proof {
        assert(old(out)@ + tail@.subrange(0, n as int) =~= old(out)@ + tail@);
    }
}

/// Word-for-word equality of two word vectors.
pub fn vec_u32_eq(a: &Vec<u32>, b: &Vec<u32>) -> (r: bool)
    ensures
        r <==> a@ == b@,
{
    if a.len() != b.len() {
        proof {
            assert(a@ != b@) by {
                assert(a@.len() != b@.len());
            }
        }
        return false;
    }
    let n = a.len();
    let mut i: usize = 0;
    while i < n
        invariant
            i <= n,
            n == a@.len() && n == b@.len(),
            forall|j: int| 0 <= j < i ==> a@[j] == b@[j],
        decreases n - i,
    {
        if a[i] != b[i] {
            return false;
        }
        i += 1;
    }
    proof {
        assert(a@ =~= b@);
    }
    true
}

/// An exact copy of a word vector.
pub fn clone_words(v: &Vec<u32>) -> (r: Vec<u32>)
    ensures
        r@ == v@,
{
    let mut out: Vec<u32> = Vec::new();
    let n = v.len();
    let mut i: usize = 0;
    while i < n
        invariant
            i <= n,
            n == v@.len(),
            out@ == v@.subrange(0, i as int),
        decreases n - i,
    {
        out.push(v[i]);
        proof {
            assert(out@ =~= v@.subrange(0, i as int + 1));
        }
        i += 1;
    }
    proof {
        assert(out@ =~= v@);
    }
    out
}

} // verus!
