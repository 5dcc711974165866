//! Render-thread state of the sphere-tracing compute pass: the current
//! pipeline, the target image and the per-frame uniform block.
//!
//! The pipeline layout is fixed for the whole process and never rebuilt;
//! a hot swap only changes which shader module the one current pipeline
//! pairs with. Resolution changes and the shader-patch lifecycle are fully
//! decoupled: they touch disjoint state.

use crate::patcher::Patcher;
use crate::uniform::{default_uniform_words, uniform_words, RenderUniform};
use vstd::prelude::*;

verus! {

/// A two-dimensional pixel extent.
#[derive(Clone, Copy, PartialEq, Eq, Structural, Debug)]
pub struct Extent2D {
    pub width: u32,
    pub height: u32,
}

/// The fixed, process-wide resource-binding layout, addressed via opaque
/// indices; shared by every pipeline variant and never mutated.
#[derive(Clone, Copy, PartialEq, Eq, Structural, Debug)]
pub struct PipelineLayout {
    /// Identity of the layout object inside the graphics runtime.
    pub id: u64,
}

/// An executable GPU pipeline: one shader module paired with the fixed
/// layout. Replaced wholesale on hot swap, never mutated in place.
pub struct ComputePipeline {
    /// Serialized module the pipeline's shader-module object was built
    /// from.
    pub module_code: Vec<u8>,
    /// The fixed layout the pipeline was built against.
    pub layout: PipelineLayout,
}

/// The storage image the pass writes into. Reallocated only when the
/// window resolution changes; each reallocation yields a fresh image.
#[derive(Clone, Copy, PartialEq, Eq, Structural, Debug)]
pub struct TargetImage {
    /// Current pixel extent.
    pub extent: Extent2D,
    /// Distinguishes successive allocations of the image.
    pub generation: u64,
}

/// What one frame hands to the GPU: the bound pipeline, the pushed uniform
/// words and the work-group counts. Equal records dispatch bit-identical
/// work.
pub struct DispatchRecord {
    /// Serialized module of the bound pipeline.
    pub pipeline_code: Vec<u8>,
    /// Layout the pipeline was built against.
    pub layout: PipelineLayout,
    /// The pushed uniform block, word for word.
    pub push_data: Vec<u32>,
    /// Work-group counts along the three dispatch axes.
    pub group_counts: [u32; 3],
}

/// The work-group counts for an extent: one group of eight invocations per
/// eight pixels along each image axis, rounded up, one along depth.
pub open spec fn group_counts_spec(e: Extent2D) -> Seq<u32> {
    seq![(e.width / 8 + 1) as u32, (e.height / 8 + 1) as u32, 1u32]
}

/// Everything of the pass state that determines one dispatch: the bound
/// module, the layout, the pushed words and the work-group counts. The
/// GPU's output is a function of these.
pub open spec fn dispatch_inputs(s: SphereTracing) -> (Seq<u8>, PipelineLayout, Seq<u32>, Seq<
    u32,
>) {
    (
        s.pipeline.module_code@,
        s.pipeline.layout,
        uniform_words(s.pc),
        group_counts_spec(s.target_image.extent),
    )
}

/// Per-frame inputs of the render loop that are independent of the patch
/// lifecycle.
pub struct FrameInput {
    /// Camera position, three float bit patterns.
    pub camera_pos: [u32; 3],
    /// Camera rotation quaternion, four float bit patterns.
    pub camera_rotation: [u32; 4],
    /// User parameter vector, three float bit patterns.
    pub offset: [u32; 3],
    /// Current window resolution.
    pub window: Extent2D,
    /// Whether the graphics runtime accepts building a pipeline this
    /// frame, should an update have arrived.
    pub pipeline_build_ok: bool,
    /// Opaque bindless index of the target image this frame.
    pub target_binding: u32,
}

/// Render-thread owner of the sphere-tracing pass.
pub struct SphereTracing {
    /// Consumer end of the handoff channel.
    pub patcher: Patcher,
    /// The fixed layout, kept for every rebuild.
    pub pipeline_layout: PipelineLayout,
    /// The one current pipeline.
    pub pipeline: ComputePipeline,
    /// The storage image the pass writes into.
    pub target_image: TargetImage,
    /// The per-frame uniform block.
    pub pc: RenderUniform,
}

impl SphereTracing {
    /// Takes ownership of the channel, consumes the pre-published baseline
    /// handle and builds the first pipeline from it. The channel must hold
    /// that first handle; its absence is a startup failure the caller
    /// handles before construction.
    pub fn new(patcher: Patcher, layout: PipelineLayout, base_resolution: Extent2D) -> (s:
        SphereTracing)
        requires
            patcher.queue@.len() > 0,
        ensures
            s.pipeline.module_code@ == patcher.queue@.last().code@,
            s.pipeline.layout == layout,
            s.pipeline_layout == layout,
            s.patcher.queue@.len() == 0,
            s.patcher.connected == patcher.connected,
            s.target_image == (TargetImage { extent: base_resolution, generation: 0 }),
            uniform_words(s.pc) == default_uniform_words(),
    {
        let mut chan = patcher;
        let base_module = chan.fetch_new_module().unwrap();
        SphereTracing {
            patcher: chan,
            pipeline_layout: layout,
            pipeline: ComputePipeline { module_code: base_module.code, layout },
            target_image: TargetImage { extent: base_resolution, generation: 0 },
            pc: RenderUniform::default(),
        }
    }

    /// Polls the channel once and hot-swaps the pipeline when an update
    /// arrived and the graphics runtime accepted the rebuild; otherwise the
    /// previous pipeline stays. The layout is reused as it is, and nothing
    /// else of the pass changes. `build_ok` is the runtime's verdict on the
    /// one rebuild this poll can ask for.
    pub fn try_new_pipeline(&mut self, build_ok: bool) -> (swapped: bool)
        ensures
            final(self).patcher.queue@.len() == 0,
            final(self).patcher.connected == old(self).patcher.connected,
            final(self).pipeline_layout == old(self).pipeline_layout,
            final(self).pipeline.layout == old(self).pipeline.layout,
            final(self).target_image == old(self).target_image,
            uniform_words(final(self).pc) == uniform_words(old(self).pc),
            swapped <==> old(self).patcher.queue@.len() > 0 && build_ok,
            swapped ==> final(self).pipeline.module_code@
                == old(self).patcher.queue@.last().code@,
            !swapped ==> final(self).pipeline.module_code@ == old(self).pipeline.module_code@,
    {
        let update = self.patcher.fetch_new_module();
        match update {
            None => false,
            Some(handle) => {
                if build_ok {
                    self.pipeline = ComputePipeline {
                        module_code: handle.code,
                        layout: self.pipeline.layout,
                    };
                    true
                } else {
                    // the rebuild failed: log and keep the previous pipeline
                    false
                }
            },
        }
    }

    /// Sets the user parameter vector for the next dispatch.
    pub fn offset_parameter(&mut self, new_offset: [u32; 3])
        ensures
            final(self).pc.offset@ == new_offset@,
            final(self).pc.camera_pos@ == old(self).pc.camera_pos@,
            final(self).pc.camera_rotation@ == old(self).pc.camera_rotation@,
            final(self).pc.fov == old(self).pc.fov,
            final(self).pc.resolution@ == old(self).pc.resolution@,
            final(self).pc.target_image == old(self).pc.target_image,
            final(self).pc.pad1@ == old(self).pc.pad1@,
            final(self).pc.pad2 == old(self).pc.pad2,
            final(self).patcher.queue@ == old(self).patcher.queue@,
            final(self).patcher.connected == old(self).patcher.connected,
            final(self).pipeline.module_code@ == old(self).pipeline.module_code@,
            final(self).pipeline.layout == old(self).pipeline.layout,
            final(self).pipeline_layout == old(self).pipeline_layout,
            final(self).target_image == old(self).target_image,
    {
        self.pc.offset = new_offset;
    }

    /// Sets the camera pose for the next dispatch.
    pub fn update_camera(&mut self, camera_pos: [u32; 3], camera_rotation: [u32; 4])
        ensures
            final(self).pc.camera_pos@ == camera_pos@,
            final(self).pc.camera_rotation@ == camera_rotation@,
            final(self).pc.offset@ == old(self).pc.offset@,
            final(self).pc.fov == old(self).pc.fov,
            final(self).pc.resolution@ == old(self).pc.resolution@,
            final(self).pc.target_image == old(self).pc.target_image,
            final(self).pc.pad1@ == old(self).pc.pad1@,
            final(self).pc.pad2 == old(self).pc.pad2,
            final(self).patcher.queue@ == old(self).patcher.queue@,
            final(self).patcher.connected == old(self).patcher.connected,
            final(self).pipeline.module_code@ == old(self).pipeline.module_code@,
            final(self).pipeline.layout == old(self).pipeline.layout,
            final(self).pipeline_layout == old(self).pipeline_layout,
            final(self).target_image == old(self).target_image,
    {
        self.pc.camera_pos = camera_pos;
        self.pc.camera_rotation = camera_rotation;
    }

    /// Reallocates the target image when the window resolution changed;
    /// otherwise nothing happens. Entirely independent of the pipeline and
    /// of the patch lifecycle.
    pub fn notify_resolution(&mut self, resolution: Extent2D)
        requires
            old(self).target_image.generation < u64::MAX,
        ensures
            old(self).target_image.extent == resolution ==> *final(self) == *old(self),
            old(self).target_image.extent != resolution ==> {
                &&& final(self).target_image.extent == resolution
                &&& final(self).target_image.generation
                    == old(self).target_image.generation + 1
            },
            final(self).patcher.queue@ == old(self).patcher.queue@,
            final(self).patcher.connected == old(self).patcher.connected,
            final(self).pipeline.module_code@ == old(self).pipeline.module_code@,
            final(self).pipeline.layout == old(self).pipeline.layout,
            final(self).pipeline_layout == old(self).pipeline_layout,
            uniform_words(final(self).pc) == uniform_words(old(self).pc),
    {
        if self.target_image.extent == resolution {
            return;
        }
        self.target_image = TargetImage {
            extent: resolution,
            generation: self.target_image.generation + 1,
        };
    }

    /// The work-group counts covering the current target image.
    pub fn dispatch_size(&self) -> (d: [u32; 3])
        ensures
            d@ == group_counts_spec(self.target_image.extent),
    {
        [
            self.target_image.extent.width / 8 + 1,
            self.target_image.extent.height / 8 + 1,
            1,
        ]
    }

    /// The per-frame step before recording: polls for a new module (at
    /// most one rebuild per poll), then points the uniform block at the
    /// current target image and its resolution.
    pub fn pre_record(&mut self, build_ok: bool, target_binding: u32) -> (swapped: bool)
        ensures
            final(self).patcher.queue@.len() == 0,
            final(self).patcher.connected == old(self).patcher.connected,
            final(self).pipeline_layout == old(self).pipeline_layout,
            final(self).pipeline.layout == old(self).pipeline.layout,
            final(self).target_image == old(self).target_image,
            swapped <==> old(self).patcher.queue@.len() > 0 && build_ok,
            swapped ==> final(self).pipeline.module_code@
                == old(self).patcher.queue@.last().code@,
            !swapped ==> final(self).pipeline.module_code@ == old(self).pipeline.module_code@,
            final(self).pc.resolution@ == seq![
                old(self).target_image.extent.width,
                old(self).target_image.extent.height,
            ],
            final(self).pc.target_image == target_binding,
            final(self).pc.camera_pos@ == old(self).pc.camera_pos@,
            final(self).pc.camera_rotation@ == old(self).pc.camera_rotation@,
            final(self).pc.fov == old(self).pc.fov,
            final(self).pc.offset@ == old(self).pc.offset@,
            final(self).pc.pad1@ == old(self).pc.pad1@,
            final(self).pc.pad2 == old(self).pc.pad2,
    {
        let swapped = self.try_new_pipeline(build_ok);
        self.pc.resolution = [self.target_image.extent.width, self.target_image.extent.height];
        self.pc.target_image = target_binding;
        swapped
    }

    /// Records one compute dispatch: the current pipeline, the pushed
    /// uniform words and the work-group counts. The record is a pure
    /// function of the pass state, so equal states dispatch bit-identical
    /// work.
    pub fn record(&self) -> (rec: DispatchRecord)
        ensures
            rec.pipeline_code@ == self.pipeline.module_code@,
            rec.layout == self.pipeline.layout,
            rec.push_data@ == uniform_words(self.pc),
            rec.group_counts@ == group_counts_spec(self.target_image.extent),
    {
        DispatchRecord {
            pipeline_code: clone_bytes(&self.pipeline.module_code),
            layout: self.pipeline.layout,
            push_data: self.pc.to_words(),
            group_counts: self.dispatch_size(),
        }
    }

    /// One whole frame: refresh the camera pose and parameter vector,
    /// react to a window-resolution change, poll the channel and hot-swap
    /// at most once, then record the dispatch.
    pub fn frame(&mut self, input: FrameInput) -> (rec: DispatchRecord)
        requires
            old(self).target_image.generation < u64::MAX,
        ensures
            final(self).target_image.extent == input.window,
            old(self).target_image.extent == input.window ==> final(self).target_image.generation
                == old(self).target_image.generation,
            old(self).target_image.extent != input.window ==> final(self).target_image.generation
                == old(self).target_image.generation + 1,
            final(self).pipeline.layout == old(self).pipeline.layout,
            final(self).pipeline_layout == old(self).pipeline_layout,
            final(self).patcher.queue@.len() == 0,
            final(self).patcher.connected == old(self).patcher.connected,
            old(self).patcher.queue@.len() > 0 && input.pipeline_build_ok
                ==> final(self).pipeline.module_code@
                == old(self).patcher.queue@.last().code@,
            !(old(self).patcher.queue@.len() > 0 && input.pipeline_build_ok)
                ==> final(self).pipeline.module_code@ == old(self).pipeline.module_code@,
            rec.pipeline_code@ == final(self).pipeline.module_code@,
            rec.layout == old(self).pipeline.layout,
            rec.group_counts@ == group_counts_spec(input.window),
            rec.push_data@ == uniform_words(final(self).pc),
            final(self).pc.camera_pos@ == input.camera_pos@,
            final(self).pc.camera_rotation@ == input.camera_rotation@,
            final(self).pc.offset@ == input.offset@,
            final(self).pc.resolution@ == seq![input.window.width, input.window.height],
            final(self).pc.target_image == input.target_binding,
            final(self).pc.fov == old(self).pc.fov,
    {
        self.update_camera(input.camera_pos, input.camera_rotation);
        self.offset_parameter(input.offset);
        self.notify_resolution(input.window);
        self.pre_record(input.pipeline_build_ok, input.target_binding);
        self.record()
    }
}

/// An exact copy of a byte vector.
pub fn clone_bytes(v: &Vec<u8>) -> (r: Vec<u8>)
    ensures
        r@ == v@,
{
    let mut out: Vec<u8> = Vec::new();
    let n = v.len();
    let mut i: usize = 0;
    while i < n
        invariant
            i <= n,
            n == v@.len(),
            out@ == v@.subrange(0, i as int),
        decreases n - i,
    {
        out.push(v[i]);
        proof {
            assert(out@ =~= v@.subrange(0, i as int + 1));
        }
        i += 1;
    }
    proof {
        assert(out@ =~= v@);
    }
    out
}

} // verus!
