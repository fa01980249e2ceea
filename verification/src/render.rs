//! The frame orchestrator: the session state machine that drives one
//! display frame per call.
//!
//! The orchestrator owns the uniform frame block and the light table, and
//! decides, per frame, the buffer parity of the two accumulation images:
//! which is the read source and which the write target. The GPU resources
//! themselves (device, queue, pipeline, textures) live outside; this module
//! hands their owner the exact uniform bytes to upload and the index of the
//! bind group to draw with, and guarantees the counter and parity protocol:
//! the counter counts samples accumulated since the last reset, parity
//! strictly alternates, and one frame's write target is the next frame's
//! read source.

use vstd::prelude::*;
use crate::layout::{lights_layout, lights_bytes, uniforms_layout, uniforms_bytes};
use crate::types::{BoundingBox, CameraUniforms, Light, Uniforms, Vec3Bits};

verus! {

/// The accumulation image bound as the write target for frame `frame`:
/// the frame's own parity.
pub open spec fn write_target(frame: nat) -> nat {
    frame % 2
}

/// The accumulation image bound as the read source for frame `frame`:
/// the other parity, holding what earlier frames accumulated.
pub open spec fn read_source(frame: nat) -> nat {
    (frame + 1) % 2
}

/// The ping-pong protocol of the accumulation pair, the invariant that
/// makes progressive averaging sound under a stateless kernel: each frame
/// has exactly one read source and one write target, they never coincide,
/// and the image written by frame `n` is the image read by frame `n + 1`.
pub proof fn lemma_parity_alternation(n: nat)
    ensures
        write_target(n) < 2,
        read_source(n) < 2,
        write_target(n) != read_source(n),
        write_target(n) == read_source(n + 1),
{
}

/// The (read source, write target) image indices for a frame counter, a
/// pure function of the counter's parity, usable away from any GPU
/// resource.
pub fn role_for(frame_count: u32) -> (roles: (usize, usize))
    ensures
        roles.0 == read_source(frame_count as nat),
        roles.1 == write_target(frame_count as nat),
{
    let w = (frame_count % 2) as usize;
    (1 - w, w)
}

/// The two same-format, same-size accumulation buffers as an explicit
/// two-slot pool. Callers never address a slot by identity, only by its
/// role — read source or write target — for a frame counter's parity.
pub struct AccumulationPair<T> {
    slots: (T, T),
}

impl<T> AccumulationPair<T> {
    /// The slot at parity `i` (0 or 1).
    pub closed spec fn slot_spec(&self, i: nat) -> T {
        if i == 0 {
            self.slots.0
        } else {
            self.slots.1
        }
    }

    /// Wraps the two buffers allocated at startup; they are never
    /// reallocated for the session's lifetime.
    pub fn new(first: T, second: T) -> (p: AccumulationPair<T>)
        ensures
            p.slot_spec(0) == first,
            p.slot_spec(1) == second,
    {
        AccumulationPair { slots: (first, second) }
    }

    /// The parity-indexed accessor: the (read source, write target) pair
    /// for a frame counter. The two are always distinct slots, and the
    /// write target of frame `n` is the read source of frame `n + 1`
    /// (`lemma_parity_alternation`).
    pub fn roles(&self, frame_count: u32) -> (rw: (&T, &T))
        ensures
            *rw.0 == self.slot_spec(read_source(frame_count as nat)),
            *rw.1 == self.slot_spec(write_target(frame_count as nat)),
    {
        if frame_count % 2 == 0 {
            (&self.slots.1, &self.slots.0)
        } else {
            (&self.slots.0, &self.slots.1)
        }
    }
}

/// Everything the GPU-owning shell needs to submit one display frame: the
/// freshly serialized uniform block, and the image roles for this frame's
/// parity. The bind group to draw with is the one wired to write the
/// `write_target` image and read the `read_source` image.
pub struct FrameSubmission {
    pub uniform_bytes: Vec<u8>,
    pub bind_group_index: usize,
    pub read_source_index: usize,
    pub write_target_index: usize,
}

/// A reset leaves every field but the frame counter alone; the counter
/// returns to zero, declaring all accumulated samples stale.
pub open spec fn reset_state(u: Uniforms) -> Uniforms {
    Uniforms { frame_count: 0, ..u }
}

/// One frame advances the counter by one and snapshots the camera; no other
/// field moves.
pub open spec fn advance_state(u: Uniforms, cam: CameraUniforms) -> Uniforms {
    Uniforms { camera: cam, frame_count: (u.frame_count + 1) as u32, ..u }
}

/// After a reset the counter reads zero, and the very next frame is frame
/// one — its sample weight makes the stale read image count for nothing —
/// with the pair's roles those of parity one: write image 1, read image 0.
pub proof fn lemma_reset_then_advance(u: Uniforms, cam: CameraUniforms)
    ensures
        reset_state(u).frame_count == 0,
        advance_state(reset_state(u), cam).frame_count == 1,
        write_target(advance_state(reset_state(u), cam).frame_count as nat) == 1,
        read_source(advance_state(reset_state(u), cam).frame_count as nat) == 0,
{
}

/// The default light the session provisions: a soft white point light at
/// (2.0, 1.0, 1.0), color (0.8, 0.8, 0.8), intensity 1.5 (the words are the
/// IEEE-754 bit patterns of those values).
pub open spec fn default_light_spec() -> Light {
    Light {
        position: Vec3Bits { x: 0x4000_0000, y: 0x3F80_0000, z: 0x3F80_0000 },
        color: Vec3Bits { x: 0x3F4C_CCCD, y: 0x3F4C_CCCD, z: 0x3F4C_CCCD },
        intensity: 0x3FC0_0000,
    }
}

/// The frame orchestrator's host-side state: the uniform frame block and
/// the light table. Immutable after construction but for the camera
/// snapshot and the frame counter.
pub struct PathTracer {
    pub uniforms: Uniforms,
    pub lights: Vec<Light>,
}

impl PathTracer {
    /// Opens a session over a loaded scene: zero camera, zero frames
    /// accumulated, the default light provisioned, counts and bounds fixed
    /// for the session's lifetime.
    pub fn new(width: u32, height: u32, triangle_count: u32, mesh_bounds: BoundingBox) -> (s:
        PathTracer)
        ensures
            s.uniforms == (Uniforms {
                camera: CameraUniforms::zero_spec(),
                width,
                height,
                frame_count: 0,
                triangle_count,
                light_count: 1,
                mesh_bounds,
            }),
            s.lights@ == seq![default_light_spec()],
    {
        let mut lights: Vec<Light> = Vec::new();
        lights.push(Light {
            position: Vec3Bits { x: 0x4000_0000, y: 0x3F80_0000, z: 0x3F80_0000 },
            color: Vec3Bits { x: 0x3F4C_CCCD, y: 0x3F4C_CCCD, z: 0x3F4C_CCCD },
            intensity: 0x3FC0_0000,
        });
        proof {
            assert(lights@ =~= seq![default_light_spec()]);
        }
        PathTracer {
            uniforms: Uniforms {
                camera: CameraUniforms::zeroed(),
                width,
                height,
                frame_count: 0,
                triangle_count,
                light_count: 1,
                mesh_bounds,
            },
            lights,
        }
    }

    /// The bytes of the light table, uploaded once at startup.
    pub fn light_table_bytes(&self) -> (r: Vec<u8>)
        ensures
            r@ == lights_layout(self.lights@),
    {
        lights_bytes(&self.lights)
    }

    /// Declares every accumulated sample stale: the counter returns to
    /// zero. Nothing is physically cleared — the counter alone is the
    /// authoritative sample weight.
    pub fn reset_samples(&mut self)
        ensures
            final(self).uniforms == reset_state(old(self).uniforms),
            final(self).lights == old(self).lights,
    {
        self.uniforms.frame_count = 0;
    }

    /// Drives one display frame: snapshots the camera, advances the frame
    /// counter, serializes the uniform block, and selects the accumulation
    /// pair's roles for the new counter's parity.
    pub fn render_frame(&mut self, camera: &CameraUniforms) -> (sub: FrameSubmission)
        requires
            old(self).uniforms.frame_count < u32::MAX,
        ensures
            final(self).uniforms == advance_state(old(self).uniforms, *camera),
            final(self).lights == old(self).lights,
            sub.uniform_bytes@ == uniforms_layout(final(self).uniforms),
            sub.read_source_index == read_source(final(self).uniforms.frame_count as nat),
            sub.write_target_index == write_target(final(self).uniforms.frame_count as nat),
            sub.bind_group_index == sub.write_target_index,
    {
        self.uniforms.camera = *camera;
        self.uniforms.frame_count = self.uniforms.frame_count + 1;
        let uniform_bytes = uniforms_bytes(&self.uniforms);
        let (read_idx, write_idx) = role_for(self.uniforms.frame_count);
        FrameSubmission {
            uniform_bytes,
            bind_group_index: write_idx,
            read_source_index: read_idx,
            write_target_index: write_idx,
        }
    }

    /// The per-frame entry that tolerates a transient failure: when the
    /// display surface produced no image this frame, nothing is submitted,
    /// the counter does not advance, and the whole state is left exactly as
    /// it was, so the next call retries normally.
    pub fn try_render_frame(&mut self, camera: &CameraUniforms, surface_ready: bool) -> (sub:
        Option<FrameSubmission>)
        requires
            old(self).uniforms.frame_count < u32::MAX,
        ensures
            !surface_ready ==> *final(self) == *old(self) && sub is None,
            surface_ready ==> {
                &&& final(self).uniforms == advance_state(old(self).uniforms, *camera)
                &&& final(self).lights == old(self).lights
                &&& sub matches Some(s) && s.uniform_bytes@ == uniforms_layout(
                    final(self).uniforms,
                ) && s.read_source_index == read_source(final(self).uniforms.frame_count as nat)
                    && s.write_target_index == write_target(
                    final(self).uniforms.frame_count as nat,
                ) && s.bind_group_index == s.write_target_index
            },
    {
        if surface_ready {
            Some(self.render_frame(camera))
        } else {
            None
        }
    }
}

} // verus!
