//! The per-frame push-uniform record.
//!
//! This is the binding contract between the render loop and the compute
//! entry point: a fixed-size, 16-byte-aligned block of 32-bit words.
//! Quantities that the GPU reads as 32-bit floats (camera position,
//! field of view, rotation quaternion, parameter vector) are carried here
//! as their raw bit patterns; the record itself never does arithmetic on
//! them, so what is stored is exactly what is dispatched.

use vstd::prelude::*;

verus! {

/// Bit pattern of the opaque resource index meaning "no target image
/// bound".
pub const RESOURCE_HANDLE_INVALID: u32 = 0xffff_ffff;

/// Bit pattern of the 32-bit float `90.0`, the default field of view in
/// degrees.
pub const DEFAULT_FOV_BITS: u32 = 0x42b4_0000;

/// Bit pattern of the 32-bit float `1.0`, the scalar part of the identity
/// quaternion.
pub const FLOAT_ONE_BITS: u32 = 0x3f80_0000;

/// Fixed-layout per-frame parameter block, refreshed every frame by the
/// render loop, independent of the patch lifecycle.
pub struct RenderUniform {
    /// Camera position, three float bit patterns.
    pub camera_pos: [u32; 3],
    /// Vertical field of view in degrees, float bit pattern.
    pub fov: u32,
    /// Camera rotation quaternion, four float bit patterns.
    pub camera_rotation: [u32; 4],
    /// Target resolution in pixels.
    pub resolution: [u32; 2],
    /// Opaque index of the target image in the bindless layout.
    pub target_image: u32,
    /// Alignment padding.
    pub pad1: [u32; 2],
    /// User parameter vector, three float bit patterns.
    pub offset: [u32; 3],
    /// Alignment padding.
    pub pad2: u32,
}

/// The words of the block, in binding order.
pub open spec fn uniform_words(u: RenderUniform) -> Seq<u32> {
    seq![
        u.camera_pos@[0],
        u.camera_pos@[1],
        u.camera_pos@[2],
        u.fov,
        u.camera_rotation@[0],
        u.camera_rotation@[1],
        u.camera_rotation@[2],
        u.camera_rotation@[3],
        u.resolution@[0],
        u.resolution@[1],
        u.target_image,
        u.pad1@[0],
        u.pad1@[1],
        u.offset@[0],
        u.offset@[1],
        u.offset@[2],
        u.pad2,
    ]
}

/// The words of the default block: camera at the origin, identity
/// rotation, 90 degree field of view, placeholder resolution, no target
/// image.
pub open spec fn default_uniform_words() -> Seq<u32> {
    seq![
        0u32, 0u32, 0u32,
        DEFAULT_FOV_BITS,
        0u32, 0u32, 0u32, FLOAT_ONE_BITS,
        100u32, 100u32,
        RESOURCE_HANDLE_INVALID,
        0u32, 0u32,
        0u32, 0u32, 0u32,
        0u32,
    ]
}

impl Default for RenderUniform {
    /// Camera at the origin looking along the identity rotation, a 90
    /// degree field of view, a small placeholder resolution and no bound
    /// target image.
    fn default() -> (r: RenderUniform)
        ensures
            r.camera_pos@ == seq![0u32, 0u32, 0u32],
            r.fov == DEFAULT_FOV_BITS,
            r.camera_rotation@ == seq![0u32, 0u32, 0u32, FLOAT_ONE_BITS],
            r.resolution@ == seq![100u32, 100u32],
            r.target_image == RESOURCE_HANDLE_INVALID,
            r.pad1@ == seq![0u32, 0u32],
            r.offset@ == seq![0u32, 0u32, 0u32],
            r.pad2 == 0,
            uniform_words(r) == default_uniform_words(),
    {
        let r = RenderUniform {
            camera_pos: [0, 0, 0],
            fov: DEFAULT_FOV_BITS,
            camera_rotation: [0, 0, 0, FLOAT_ONE_BITS],
            resolution: [100, 100],
            target_image: RESOURCE_HANDLE_INVALID,
            pad1: [0, 0],
            offset: [0, 0, 0],
            pad2: 0,
        };
        proof {
            assert(uniform_words(r) =~= default_uniform_words());
        }
        r
    }
}

impl RenderUniform {
    /// The block as the word vector that is pushed to the GPU.
    pub fn to_words(&self) -> (r: Vec<u32>)
        ensures
            r@ == uniform_words(*self),
    {
        let mut out: Vec<u32> = Vec::new();
        out.push(self.camera_pos[0]);
        out.push(self.camera_pos[1]);
        out.push(self.camera_pos[2]);
        out.push(self.fov);
        out.push(self.camera_rotation[0]);
        out.push(self.camera_rotation[1]);
        out.push(self.camera_rotation[2]);
        out.push(self.camera_rotation[3]);
        out.push(self.resolution[0]);
        out.push(self.resolution[1]);
        out.push(self.target_image);
        out.push(self.pad1[0]);
        out.push(self.pad1[1]);
        out.push(self.offset[0]);
        out.push(self.offset[1]);
        out.push(self.offset[2]);
        out.push(self.pad2);
        proof {
            assert(out@ =~= uniform_words(*self));
        }
        out
    }
}

} // verus!
