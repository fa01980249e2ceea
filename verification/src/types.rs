//! Core records of the scene: scalar words, vertices, triangles, bounds,
//! lights, and the load-time error taxonomy.
//!
//! Every scalar the GPU kernel reads as a 32-bit float is held here as its
//! IEEE-754 bit pattern, a plain `u32` word. The crate never evaluates
//! floating-point arithmetic; where the load path must order two scalars
//! (bounding-box folding) it compares their order keys (`float_key`), the
//! classic monotone mapping from IEEE-754 bit patterns to unsigned integers.

use vstd::prelude::*;

verus! {

/// A three-component vector of 32-bit scalar words (IEEE-754 bit patterns).
#[derive(Clone, Copy, Debug, PartialEq, Eq, Structural)]
pub struct Vec3Bits {
    pub x: u32,
    pub y: u32,
    pub z: u32,
}

impl Vec3Bits {
    /// The all-zero vector, the bit pattern of (+0.0, +0.0, +0.0).
    pub open spec fn zero_spec() -> Vec3Bits {
        Vec3Bits { x: 0, y: 0, z: 0 }
    }

    pub fn zero() -> (v: Vec3Bits)
        ensures
            v == Vec3Bits::zero_spec(),
    {
        Vec3Bits { x: 0, y: 0, z: 0 }
    }
}

/// One record of the fixed-capacity triangle table: three vertices, the
/// precomputed unit face normal, and a material index. Padding words that
/// the cross-boundary layout carries after each vector are not stored here;
/// they are produced by the byte-layout functions.
#[derive(Clone, Copy, Debug, PartialEq, Eq, Structural)]
pub struct Triangle {
    pub v0: Vec3Bits,
    pub v1: Vec3Bits,
    pub v2: Vec3Bits,
    pub normal: Vec3Bits,
    pub material_index: u32,
}

impl Triangle {
    /// The placeholder record that pads the table beyond the real count.
    pub open spec fn placeholder_spec() -> Triangle {
        Triangle {
            v0: Vec3Bits::zero_spec(),
            v1: Vec3Bits::zero_spec(),
            v2: Vec3Bits::zero_spec(),
            normal: Vec3Bits::zero_spec(),
            material_index: 0,
        }
    }

    pub fn placeholder() -> (t: Triangle)
        ensures
            t == Triangle::placeholder_spec(),
    {
        Triangle {
            v0: Vec3Bits::zero(),
            v1: Vec3Bits::zero(),
            v2: Vec3Bits::zero(),
            normal: Vec3Bits::zero(),
            material_index: 0,
        }
    }
}

/// Axis-aligned bounding box of the scene geometry, one scalar word per axis
/// and corner.
#[derive(Clone, Copy, Debug, PartialEq, Eq, Structural)]
pub struct BoundingBox {
    pub min: Vec3Bits,
    pub max: Vec3Bits,
}

/// A point light: position, RGB color, scalar intensity.
#[derive(Clone, Copy, Debug, PartialEq, Eq, Structural)]
pub struct Light {
    pub position: Vec3Bits,
    pub color: Vec3Bits,
    pub intensity: u32,
}

/// The per-frame camera snapshot the uniform block carries: eye position
/// and the orthonormal view basis (forward, right, up), all unit vectors,
/// produced fresh each frame by the camera's owner.
#[derive(Clone, Copy, Debug, PartialEq, Eq, Structural)]
pub struct CameraUniforms {
    pub eye: Vec3Bits,
    pub forward: Vec3Bits,
    pub right: Vec3Bits,
    pub up: Vec3Bits,
}

impl CameraUniforms {
    /// The all-zero snapshot the session starts from, before the first
    /// frame refreshes it.
    pub open spec fn zero_spec() -> CameraUniforms {
        CameraUniforms {
            eye: Vec3Bits::zero_spec(),
            forward: Vec3Bits::zero_spec(),
            right: Vec3Bits::zero_spec(),
            up: Vec3Bits::zero_spec(),
        }
    }

    pub fn zeroed() -> (c: CameraUniforms)
        ensures
            c == CameraUniforms::zero_spec(),
    {
        CameraUniforms {
            eye: Vec3Bits::zero(),
            forward: Vec3Bits::zero(),
            right: Vec3Bits::zero(),
            up: Vec3Bits::zero(),
        }
    }
}

/// The uniform frame block: the camera snapshot, the viewport size, the
/// frame counter (samples accumulated since the last reset), the real
/// triangle and light counts, and the scene bounds. Refreshed once per
/// frame; the frame counter is the only field with reset semantics.
#[derive(Clone, Copy, Debug, PartialEq, Eq, Structural)]
pub struct Uniforms {
    pub camera: CameraUniforms,
    pub width: u32,
    pub height: u32,
    pub frame_count: u32,
    pub triangle_count: u32,
    pub light_count: u32,
    pub mesh_bounds: BoundingBox,
}

/// Why a mesh asset was rejected at load time.
#[derive(Clone, Copy, Debug, PartialEq, Eq, Structural)]
pub enum AssetLoadError {
    /// The asset holds more real triangles than the fixed table capacity;
    /// the kernel's addressable table size is fixed, so this is fatal.
    CapacityOverflow { triangle_count: usize },
    /// A face whose area is zero: its normal is undefined and must be
    /// rejected rather than uploaded as a NaN vector.
    DegenerateFace { face: usize },
    /// A vertex index points past the end of the position table.
    IndexOutOfRange,
}

/// The monotone order key of an IEEE-754 bit pattern: negative patterns are
/// complemented, non-negative ones get the sign bit set. For all non-NaN
/// floats `a`, `b`: `a <= b` exactly when `float_key(bits(a)) <= float_key(bits(b))`
/// (with the total order refinement -0.0 < +0.0; NaN patterns sort above
/// the infinities).
pub open spec fn float_key(w: u32) -> u32 {
    if w >= 0x8000_0000 {
        !w
    } else {
        w | 0x8000_0000
    }
}

/// Scalar order in float order: `a` is at or below `b`.
pub open spec fn le_bits(a: u32, b: u32) -> bool {
    float_key(a) <= float_key(b)
}

/// The lower of two scalar words in float order; ties keep the left word.
pub open spec fn min_word_spec(a: u32, b: u32) -> u32 {
    if float_key(a) <= float_key(b) {
        a
    } else {
        b
    }
}

/// The higher of two scalar words in float order; ties keep the left word.
pub open spec fn max_word_spec(a: u32, b: u32) -> u32 {
    if float_key(b) <= float_key(a) {
        a
    } else {
        b
    }
}

/// Computes the order key of a scalar word.
pub fn float_key_exec(w: u32) -> (k: u32)
    ensures
        k == float_key(w),
{
    if w >= 0x8000_0000 {
        !w
    } else {
        w | 0x8000_0000
    }
}

/// The lower of two scalar words in float order.
pub fn min_word(a: u32, b: u32) -> (r: u32)
    ensures
        r == min_word_spec(a, b),
        le_bits(r, a) && le_bits(r, b),
        r == a || r == b,
{
    if float_key_exec(a) <= float_key_exec(b) {
        a
    } else {
        b
    }
}

/// The higher of two scalar words in float order.
pub fn max_word(a: u32, b: u32) -> (r: u32)
    ensures
        r == max_word_spec(a, b),
        le_bits(a, r) && le_bits(b, r),
        r == a || r == b,
{
    if float_key_exec(b) <= float_key_exec(a) {
        a
    } else {
        b
    }
}

/// The order key is injective: words that compare equal in both directions
/// are the same word.
pub proof fn lemma_le_bits_antisymmetric(a: u32, b: u32)
    requires
        le_bits(a, b),
        le_bits(b, a),
    ensures
        a == b,
{
    assert((if a >= 0x8000_0000 {
        !a
    } else {
        a | 0x8000_0000
    }) == (if b >= 0x8000_0000 {
        !b
    } else {
        b | 0x8000_0000
    }) ==> a == b) by (bit_vector);
}

} // verus!
