//! The cross-boundary byte layout: the exact bytes, offsets and padding of
//! every record the GPU kernel reads.
//!
//! This is a serialization contract. Each scalar word is written little
//! endian; each three-component vector is followed by one 32-bit tail word,
//! either explicit padding (zero) or the scalar packed there (a triangle's
//! material index, a light's intensity). Record sizes: triangle 64 bytes,
//! bounding box 32, light 32, uniform frame block 128.

use vstd::prelude::*;
use crate::types::{BoundingBox, CameraUniforms, Light, Triangle, Uniforms, Vec3Bits};

verus! {

/// The four little-endian bytes of one scalar word.
pub open spec fn word_layout(w: u32) -> Seq<u8> {
    seq![
        (w & 0xff) as u8,
        ((w >> 8) & 0xff) as u8,
        ((w >> 16) & 0xff) as u8,
        ((w >> 24) & 0xff) as u8,
    ]
}

/// A three-component vector followed by its 32-bit tail word: 16 bytes.
pub open spec fn vec3_layout(v: Vec3Bits, tail: u32) -> Seq<u8> {
    word_layout(v.x) + word_layout(v.y) + word_layout(v.z) + word_layout(tail)
}

/// One triangle record: three padded vertices, then the normal with the
/// material index packed in its tail word: 64 bytes.
pub open spec fn triangle_layout(t: Triangle) -> Seq<u8> {
    vec3_layout(t.v0, 0) + vec3_layout(t.v1, 0) + vec3_layout(t.v2, 0) + vec3_layout(
        t.normal,
        t.material_index,
    )
}

/// The whole triangle table, record after record.
pub open spec fn table_layout(ts: Seq<Triangle>) -> Seq<u8> {
    ts.map_values(|t: Triangle| triangle_layout(t)).flatten()
}

/// The bounding-box record: padded min corner, padded max corner: 32 bytes.
pub open spec fn bounds_layout(b: BoundingBox) -> Seq<u8> {
    vec3_layout(b.min, 0) + vec3_layout(b.max, 0)
}

/// One light record: padded position, then the color with the intensity
/// packed in its tail word: 32 bytes.
pub open spec fn light_layout(l: Light) -> Seq<u8> {
    vec3_layout(l.position, 0) + vec3_layout(l.color, l.intensity)
}

/// The whole light table, record after record.
pub open spec fn lights_layout(ls: Seq<Light>) -> Seq<u8> {
    ls.map_values(|l: Light| light_layout(l)).flatten()
}

/// The camera sub-block of the uniform frame block: eye, forward, right,
/// up, each padded: 64 bytes.
pub open spec fn camera_layout(c: CameraUniforms) -> Seq<u8> {
    vec3_layout(c.eye, 0) + vec3_layout(c.forward, 0) + vec3_layout(c.right, 0) + vec3_layout(
        c.up,
        0,
    )
}

/// The uniform frame block: the camera sub-block, five counter words, three
/// padding words, then the bounding-box record: 128 bytes.
pub open spec fn uniforms_layout(u: Uniforms) -> Seq<u8> {
    camera_layout(u.camera) + word_layout(u.width) + word_layout(u.height) + word_layout(
        u.frame_count,
    ) + word_layout(u.triangle_count) + word_layout(u.light_count) + word_layout(0) + word_layout(
        0,
    ) + word_layout(0) + bounds_layout(u.mesh_bounds)
}

/// The flattening of rows of one uniform length is as long as their count
/// times that length.
proof fn lemma_flatten_uniform_len(rows: Seq<Seq<u8>>, size: int)
    requires
        size >= 0,
        forall|i: int| 0 <= i < rows.len() ==> (#[trigger] rows[i]).len() == size,
    ensures
        rows.flatten().len() == size * rows.len(),
    decreases rows.len(),
{
    if rows.len() == 0 {
        assert(rows.flatten() =~= Seq::<u8>::empty());
        assert(size * 0 == 0) by (nonlinear_arith);
    } else {
        let prefix = rows.drop_last();
        lemma_flatten_uniform_len(prefix, size);
        assert(rows =~= prefix.push(rows.last()));
        prefix.lemma_flatten_push(rows.last());
        assert(size * (rows.len() - 1) + size == size * rows.len()) by (nonlinear_arith);
    }
}

/// In the flattening of rows of one uniform length, row `i` sits exactly
/// at offset `size * i`.
proof fn lemma_flatten_uniform_record(rows: Seq<Seq<u8>>, size: int, i: int)
    requires
        size >= 0,
        forall|j: int| 0 <= j < rows.len() ==> (#[trigger] rows[j]).len() == size,
        0 <= i < rows.len(),
    ensures
        rows.flatten().subrange(size * i, size * i + size) == rows[i],
    decreases rows.len(),
{
    lemma_flatten_uniform_len(rows, size);
    let prefix = rows.drop_last();
    lemma_flatten_uniform_len(prefix, size);
    assert(rows =~= prefix.push(rows.last()));
    prefix.lemma_flatten_push(rows.last());
    if i == rows.len() - 1 {
        assert(size * i + size == size * rows.len()) by (nonlinear_arith)
            requires
                i == rows.len() - 1,
        ;
        assert(rows.flatten().subrange(size * i, size * i + size) =~= rows.last());
    } else {
        lemma_flatten_uniform_record(prefix, size, i);
        assert(size * i + size <= size * (rows.len() - 1)) by (nonlinear_arith)
            requires
                0 <= i < rows.len() - 1,
                size >= 0,
        ;
        assert(rows.flatten().subrange(size * i, size * i + size) =~= prefix.flatten().subrange(
            size * i,
            size * i + size,
        ));
    }
}

/// The stable-addressing law of the mesh upload: triangle record `i` sits
/// at byte offset `64 * i` of the serialized table, so the kernel's
/// compile-time-sized binding addresses record `i` exactly there.
pub proof fn lemma_table_record_offset(ts: Seq<Triangle>, i: int)
    requires
        0 <= i < ts.len(),
    ensures
        table_layout(ts).subrange(64 * i, 64 * i + 64) == triangle_layout(ts[i]),
{
    let rows = ts.map_values(|t: Triangle| triangle_layout(t));
    lemma_flatten_uniform_record(rows, 64, i);
}

/// The same law for the light upload: light record `i` sits at byte offset
/// `32 * i` of the serialized table.
pub proof fn lemma_light_record_offset(ls: Seq<Light>, i: int)
    requires
        0 <= i < ls.len(),
    ensures
        lights_layout(ls).subrange(32 * i, 32 * i + 32) == light_layout(ls[i]),
{
    let rows = ls.map_values(|l: Light| light_layout(l));
    lemma_flatten_uniform_record(rows, 32, i);
}

/// Appends one scalar word, little endian.
fn push_word(out: &mut Vec<u8>, w: u32)
    ensures
        final(out)@ == old(out)@ + word_layout(w),
{
    proof {
        assert((w & 0xff) < 256 && ((w >> 8) & 0xff) < 256 && ((w >> 16) & 0xff) < 256 && ((w
            >> 24) & 0xff) < 256) by (bit_vector);
    }
    out.push((w & 0xff) as u8);
    out.push(((w >> 8) & 0xff) as u8);
    out.push(((w >> 16) & 0xff) as u8);
    out.push(((w >> 24) & 0xff) as u8);
    proof {
        assert(out@ =~= old(out)@ + word_layout(w));
    }
}

/// Appends a vector and its tail word.
fn push_vec3(out: &mut Vec<u8>, v: Vec3Bits, tail: u32)
    ensures
        final(out)@ == old(out)@ + vec3_layout(v, tail),
{
    push_word(out, v.x);
    push_word(out, v.y);
    push_word(out, v.z);
    push_word(out, tail);
    proof {
        assert(out@ =~= old(out)@ + vec3_layout(v, tail));
    }
}

/// Appends one triangle record.
fn push_triangle(out: &mut Vec<u8>, t: &Triangle)
    ensures
        final(out)@ == old(out)@ + triangle_layout(*t),
{
    push_vec3(out, t.v0, 0);
    push_vec3(out, t.v1, 0);
    push_vec3(out, t.v2, 0);
    push_vec3(out, t.normal, t.material_index);
    proof {
        assert(out@ =~= old(out)@ + triangle_layout(*t));
    }
}

/// Serializes the triangle table for the one-time mesh upload: 64 bytes per
/// record, records in table order.
pub fn table_bytes(ts: &Vec<Triangle>) -> (r: Vec<u8>)
    ensures
        r@ == table_layout(ts@),
        r@.len() == 64 * ts@.len(),
{
    let mut out: Vec<u8> = Vec::new();
    let mut i: usize = 0;
    while i < ts.len()
        invariant
            i <= ts@.len(),
            out@ == table_layout(ts@.take(i as int)),
            out@.len() == 64 * i,
        decreases ts@.len() - i,
    {
        push_triangle(&mut out, &ts[i]);
        proof {
            let mapped = ts@.take(i as int).map_values(|t: Triangle| triangle_layout(t));
            assert(ts@.take(i + 1).map_values(|t: Triangle| triangle_layout(t)) =~= mapped.push(
                triangle_layout(ts@[i as int]),
            ));
            mapped.lemma_flatten_push(triangle_layout(ts@[i as int]));
        }
        i = i + 1;
    }
    proof {
        assert(ts@.take(ts@.len() as int) =~= ts@);
    }
    out
}

/// Serializes the bounding-box record.
pub fn bounds_bytes(b: &BoundingBox) -> (r: Vec<u8>)
    ensures
        r@ == bounds_layout(*b),
        r@.len() == 32,
{
    let mut out: Vec<u8> = Vec::new();
    push_vec3(&mut out, b.min, 0);
    push_vec3(&mut out, b.max, 0);
    out
}

/// Serializes the light table for the one-time light upload: 32 bytes per
/// record, records in table order.
pub fn lights_bytes(ls: &Vec<Light>) -> (r: Vec<u8>)
    ensures
        r@ == lights_layout(ls@),
        r@.len() == 32 * ls@.len(),
{
    let mut out: Vec<u8> = Vec::new();
    let mut i: usize = 0;
    while i < ls.len()
        invariant
            i <= ls@.len(),
            out@ == lights_layout(ls@.take(i as int)),
            out@.len() == 32 * i,
        decreases ls@.len() - i,
    {
        push_vec3(&mut out, ls[i].position, 0);
        push_vec3(&mut out, ls[i].color, ls[i].intensity);
        proof {
            let mapped = ls@.take(i as int).map_values(|l: Light| light_layout(l));
            assert(out@ =~= lights_layout(ls@.take(i as int)) + light_layout(ls@[i as int]));
            assert(ls@.take(i + 1).map_values(|l: Light| light_layout(l)) =~= mapped.push(
                light_layout(ls@[i as int]),
            ));
            mapped.lemma_flatten_push(light_layout(ls@[i as int]));
        }
        i = i + 1;
    }
    proof {
        assert(ls@.take(ls@.len() as int) =~= ls@);
    }
    out
}

/// Serializes the uniform frame block, written to the uniform buffer once
/// per frame.
pub fn uniforms_bytes(u: &Uniforms) -> (r: Vec<u8>)
    ensures
        r@ == uniforms_layout(*u),
        r@.len() == 128,
{
    let mut out: Vec<u8> = Vec::new();
    push_vec3(&mut out, u.camera.eye, 0);
    push_vec3(&mut out, u.camera.forward, 0);
    push_vec3(&mut out, u.camera.right, 0);
    push_vec3(&mut out, u.camera.up, 0);
    push_word(&mut out, u.width);
    push_word(&mut out, u.height);
    push_word(&mut out, u.frame_count);
    push_word(&mut out, u.triangle_count);
    push_word(&mut out, u.light_count);
    push_word(&mut out, 0);
    push_word(&mut out, 0);
    push_word(&mut out, 0);
    push_vec3(&mut out, u.mesh_bounds.min, 0);
    push_vec3(&mut out, u.mesh_bounds.max, 0);
    proof {
        assert(out@ =~= uniforms_layout(*u));
    }
    out
}

} // verus!
