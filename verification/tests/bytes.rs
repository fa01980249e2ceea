use path_tracer::layout::{bounds_bytes, lights_bytes, table_bytes, uniforms_bytes};
use path_tracer::load::{build_table, FaceVertices};
use path_tracer::render::PathTracer;
use path_tracer::types::{
    max_word, min_word, BoundingBox, CameraUniforms, Light, Triangle, Uniforms, Vec3Bits,
};
use path_tracer::TRIANGLE_CAPACITY;

fn bits3(x: f32, y: f32, z: f32) -> Vec3Bits {
    Vec3Bits {
        x: x.to_bits(),
        y: y.to_bits(),
        z: z.to_bits(),
    }
}

fn word_at(bytes: &[u8], offset: usize) -> u32 {
    u32::from_le_bytes([
        bytes[offset],
        bytes[offset + 1],
        bytes[offset + 2],
        bytes[offset + 3],
    ])
}

#[test]
fn triangle_record_is_64_bytes_with_padded_vectors() {
    let t = Triangle {
        v0: bits3(1.0, 2.0, 3.0),
        v1: bits3(4.0, 5.0, 6.0),
        v2: bits3(7.0, 8.0, 9.0),
        normal: bits3(0.0, 0.0, 1.0),
        material_index: 7,
    };
    let bytes = table_bytes(&vec![t]);
    assert_eq!(bytes.len(), 64);
    assert_eq!(word_at(&bytes, 0), 1.0f32.to_bits());
    assert_eq!(word_at(&bytes, 4), 2.0f32.to_bits());
    assert_eq!(word_at(&bytes, 8), 3.0f32.to_bits());
    assert_eq!(word_at(&bytes, 12), 0); // pad after v0
    assert_eq!(word_at(&bytes, 16), 4.0f32.to_bits());
    assert_eq!(word_at(&bytes, 28), 0); // pad after v1
    assert_eq!(word_at(&bytes, 32), 7.0f32.to_bits());
    assert_eq!(word_at(&bytes, 44), 0); // pad after v2
    assert_eq!(word_at(&bytes, 48), 0.0f32.to_bits());
    assert_eq!(word_at(&bytes, 56), 1.0f32.to_bits());
    assert_eq!(word_at(&bytes, 60), 7); // material index in the tail word
}

#[test]
fn full_table_upload_is_capacity_times_record_size() {
    let faces = vec![FaceVertices {
        v0: bits3(0.0, 0.0, 0.0),
        v1: bits3(1.0, 0.0, 0.0),
        v2: bits3(0.0, 1.0, 0.0),
    }];
    let normals = vec![Some(bits3(0.0, 0.0, 1.0))];
    let g = build_table(&faces, &normals).unwrap();
    let bytes = table_bytes(&g.triangles);
    assert_eq!(bytes.len(), 64 * TRIANGLE_CAPACITY);
    // The second record onward is all zero placeholder bytes.
    assert!(bytes[64..].iter().all(|b| *b == 0));
}

#[test]
fn bounding_box_record_is_32_bytes() {
    let b = BoundingBox {
        min: bits3(-1.0, -2.0, -3.0),
        max: bits3(1.0, 2.0, 3.0),
    };
    let bytes = bounds_bytes(&b);
    assert_eq!(bytes.len(), 32);
    assert_eq!(word_at(&bytes, 0), (-1.0f32).to_bits());
    assert_eq!(word_at(&bytes, 8), (-3.0f32).to_bits());
    assert_eq!(word_at(&bytes, 12), 0); // pad after min
    assert_eq!(word_at(&bytes, 16), 1.0f32.to_bits());
    assert_eq!(word_at(&bytes, 28), 0); // pad after max
}

#[test]
fn light_record_packs_intensity_in_the_tail_word() {
    let l = Light {
        position: bits3(2.0, 1.0, 1.0),
        color: bits3(0.8, 0.8, 0.8),
        intensity: 1.5f32.to_bits(),
    };
    let bytes = lights_bytes(&vec![l, l]);
    assert_eq!(bytes.len(), 64);
    assert_eq!(word_at(&bytes, 0), 2.0f32.to_bits());
    assert_eq!(word_at(&bytes, 12), 0); // pad after position
    assert_eq!(word_at(&bytes, 16), 0.8f32.to_bits());
    assert_eq!(word_at(&bytes, 28), 1.5f32.to_bits());
    // Second record starts at 32 with the same layout.
    assert_eq!(word_at(&bytes, 32), 2.0f32.to_bits());
}

#[test]
fn uniform_block_is_128_bytes_with_fixed_offsets() {
    let u = Uniforms {
        camera: CameraUniforms {
            eye: bits3(0.0, 1.0, 2.0),
            forward: bits3(0.0, 0.0, -1.0),
            right: bits3(1.0, 0.0, 0.0),
            up: bits3(0.0, 1.0, 0.0),
        },
        width: 1600,
        height: 1200,
        frame_count: 42,
        triangle_count: 12,
        light_count: 1,
        mesh_bounds: BoundingBox {
            min: bits3(-1.0, -1.0, -1.0),
            max: bits3(1.0, 1.0, 1.0),
        },
    };
    let bytes = uniforms_bytes(&u);
    assert_eq!(bytes.len(), 128);
    assert_eq!(word_at(&bytes, 0), 0.0f32.to_bits()); // eye.x
    assert_eq!(word_at(&bytes, 8), 2.0f32.to_bits()); // eye.z
    assert_eq!(word_at(&bytes, 12), 0); // pad after eye
    assert_eq!(word_at(&bytes, 24), (-1.0f32).to_bits()); // forward.z
    assert_eq!(word_at(&bytes, 32), 1.0f32.to_bits()); // right.x
    assert_eq!(word_at(&bytes, 52), 1.0f32.to_bits()); // up.y
    assert_eq!(word_at(&bytes, 64), 1600); // width
    assert_eq!(word_at(&bytes, 68), 1200); // height
    assert_eq!(word_at(&bytes, 72), 42); // frame counter
    assert_eq!(word_at(&bytes, 76), 12); // triangle count
    assert_eq!(word_at(&bytes, 80), 1); // light count
    assert_eq!(word_at(&bytes, 84), 0); // padding words
    assert_eq!(word_at(&bytes, 88), 0);
    assert_eq!(word_at(&bytes, 92), 0);
    assert_eq!(word_at(&bytes, 96), (-1.0f32).to_bits()); // bounds min.x
    assert_eq!(word_at(&bytes, 112), 1.0f32.to_bits()); // bounds max.x
}

#[test]
fn render_frame_serializes_the_advanced_counter() {
    let mut pt = PathTracer::new(8, 8, 3, BoundingBox {
        min: bits3(0.0, 0.0, 0.0),
        max: bits3(1.0, 1.0, 1.0),
    });
    let cam = CameraUniforms {
        eye: bits3(9.0, 0.0, 0.0),
        forward: bits3(0.0, 0.0, -1.0),
        right: bits3(1.0, 0.0, 0.0),
        up: bits3(0.0, 1.0, 0.0),
    };
    let sub = pt.render_frame(&cam);
    assert_eq!(sub.uniform_bytes.len(), 128);
    assert_eq!(word_at(&sub.uniform_bytes, 0), 9.0f32.to_bits()); // fresh camera
    assert_eq!(word_at(&sub.uniform_bytes, 72), 1); // counter already advanced
    assert_eq!(word_at(&sub.uniform_bytes, 76), 3);
    let light_upload = pt.light_table_bytes();
    assert_eq!(light_upload.len(), 32);
    assert_eq!(word_at(&light_upload, 28), 1.5f32.to_bits());
}

#[test]
fn scalar_order_follows_float_order() {
    let a = (-2.5f32).to_bits();
    let b = 1.25f32.to_bits();
    assert_eq!(min_word(a, b), a);
    assert_eq!(max_word(a, b), b);
    // Negative zero sorts below positive zero in the refined total order.
    let nz = (-0.0f32).to_bits();
    let pz = 0.0f32.to_bits();
    assert_eq!(min_word(pz, nz), nz);
    assert_eq!(max_word(pz, nz), pz);
    // Large magnitudes on both sides.
    let lo = f32::MIN.to_bits();
    let hi = f32::MAX.to_bits();
    assert_eq!(min_word(hi, lo), lo);
    assert_eq!(max_word(lo, hi), hi);
}
