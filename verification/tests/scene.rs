use path_tracer::load::{build_table, gather_faces, FaceVertices, MeshData};
use path_tracer::types::{AssetLoadError, Triangle, Vec3Bits};
use path_tracer::TRIANGLE_CAPACITY;

fn bits3(x: f32, y: f32, z: f32) -> Vec3Bits {
    Vec3Bits {
        x: x.to_bits(),
        y: y.to_bits(),
        z: z.to_bits(),
    }
}

fn mesh(positions: &[f32], indices: &[u32]) -> MeshData {
    MeshData {
        positions: positions.iter().map(|p| p.to_bits()).collect(),
        indices: indices.to_vec(),
    }
}

/// Face normal as the program computes it outside the library: the
/// normalized cross product of (v1 - v0) x (v2 - v0).
fn face_normal(v0: [f32; 3], v1: [f32; 3], v2: [f32; 3]) -> Option<Vec3Bits> {
    let e1 = [v1[0] - v0[0], v1[1] - v0[1], v1[2] - v0[2]];
    let e2 = [v2[0] - v0[0], v2[1] - v0[1], v2[2] - v0[2]];
    let c = [
        e1[1] * e2[2] - e1[2] * e2[1],
        e1[2] * e2[0] - e1[0] * e2[2],
        e1[0] * e2[1] - e1[1] * e2[0],
    ];
    let len = (c[0] * c[0] + c[1] * c[1] + c[2] * c[2]).sqrt();
    if len == 0.0 || !len.is_finite() {
        None
    } else {
        Some(bits3(c[0] / len, c[1] / len, c[2] / len))
    }
}

#[test]
fn single_triangle_scene() {
    let m = mesh(&[0.0, 0.0, 0.0, 1.0, 0.0, 0.0, 0.0, 1.0, 0.0], &[0, 1, 2]);
    let faces = gather_faces(&vec![m]).unwrap();
    assert_eq!(faces.len(), 1);
    assert_eq!(faces[0].v0, bits3(0.0, 0.0, 0.0));
    assert_eq!(faces[0].v1, bits3(1.0, 0.0, 0.0));
    assert_eq!(faces[0].v2, bits3(0.0, 1.0, 0.0));

    let n = face_normal([0.0, 0.0, 0.0], [1.0, 0.0, 0.0], [0.0, 1.0, 0.0]);
    assert_eq!(n, Some(bits3(0.0, 0.0, 1.0)));

    let g = build_table(&faces, &vec![n]).unwrap();
    assert_eq!(g.triangle_count, 1);
    assert_eq!(g.triangles.len(), TRIANGLE_CAPACITY);
    assert_eq!(g.triangles[0].normal, bits3(0.0, 0.0, 1.0));
    assert_eq!(g.triangles[0].material_index, 0);
    assert_eq!(g.bounds.min, bits3(0.0, 0.0, 0.0));
    assert_eq!(g.bounds.max, bits3(1.0, 1.0, 0.0));
}

#[test]
fn table_padded_with_zero_placeholders() {
    let m = mesh(&[0.0, 0.0, 0.0, 1.0, 0.0, 0.0, 0.0, 1.0, 0.0], &[0, 1, 2]);
    let faces = gather_faces(&vec![m]).unwrap();
    let n = face_normal([0.0, 0.0, 0.0], [1.0, 0.0, 0.0], [0.0, 1.0, 0.0]);
    let g = build_table(&faces, &vec![n]).unwrap();
    assert_eq!(g.triangles.len(), TRIANGLE_CAPACITY);
    let zero = Vec3Bits { x: 0, y: 0, z: 0 };
    for i in 1..TRIANGLE_CAPACITY {
        let t: &Triangle = &g.triangles[i];
        assert_eq!(t.v0, zero);
        assert_eq!(t.v1, zero);
        assert_eq!(t.v2, zero);
        assert_eq!(t.normal, zero);
        assert_eq!(t.material_index, 0);
    }
}

#[test]
fn capacity_overflow_is_an_error() {
    let mut faces = Vec::new();
    let mut normals = Vec::new();
    for _ in 0..(TRIANGLE_CAPACITY + 1) {
        faces.push(FaceVertices {
            v0: bits3(0.0, 0.0, 0.0),
            v1: bits3(1.0, 0.0, 0.0),
            v2: bits3(0.0, 1.0, 0.0),
        });
        normals.push(Some(bits3(0.0, 0.0, 1.0)));
    }
    let r = build_table(&faces, &normals);
    assert_eq!(
        r.unwrap_err(),
        AssetLoadError::CapacityOverflow {
            triangle_count: TRIANGLE_CAPACITY + 1
        }
    );
}

#[test]
fn degenerate_face_is_flagged() {
    let faces = vec![
        FaceVertices {
            v0: bits3(0.0, 0.0, 0.0),
            v1: bits3(1.0, 0.0, 0.0),
            v2: bits3(0.0, 1.0, 0.0),
        },
        FaceVertices {
            v0: bits3(1.0, 1.0, 1.0),
            v1: bits3(1.0, 1.0, 1.0),
            v2: bits3(1.0, 1.0, 1.0),
        },
    ];
    let n0 = Some(bits3(0.0, 0.0, 1.0));
    let n1 = face_normal([1.0, 1.0, 1.0], [1.0, 1.0, 1.0], [1.0, 1.0, 1.0]);
    assert_eq!(n1, None);
    let r = build_table(&faces, &vec![n0, n1]);
    assert_eq!(r.unwrap_err(), AssetLoadError::DegenerateFace { face: 1 });
}

#[test]
fn index_out_of_range_is_an_error() {
    let m = mesh(&[0.0, 0.0, 0.0, 1.0, 0.0, 0.0, 0.0, 1.0, 0.0], &[0, 1, 5]);
    let r = gather_faces(&vec![m]);
    assert_eq!(r.unwrap_err(), AssetLoadError::IndexOutOfRange);
}

#[test]
fn bounds_are_ordered_on_every_axis() {
    let m = mesh(
        &[
            -1.5, 2.0, 3.0, //
            4.0, -2.5, 1.0, //
            0.5, 1.0, -6.0,
        ],
        &[0, 1, 2],
    );
    let faces = gather_faces(&vec![m]).unwrap();
    let n = face_normal([-1.5, 2.0, 3.0], [4.0, -2.5, 1.0], [0.5, 1.0, -6.0]);
    assert!(n.is_some());
    let g = build_table(&faces, &vec![n]).unwrap();
    assert_eq!(g.bounds.min, bits3(-1.5, -2.5, -6.0));
    assert_eq!(g.bounds.max, bits3(4.0, 2.0, 3.0));
    for axis in 0..3 {
        let (mn, mx) = match axis {
            0 => (g.bounds.min.x, g.bounds.max.x),
            1 => (g.bounds.min.y, g.bounds.max.y),
            _ => (g.bounds.min.z, g.bounds.max.z),
        };
        assert!(f32::from_bits(mn) <= f32::from_bits(mx));
    }
}

#[test]
fn meshes_are_concatenated_in_order() {
    let m0 = mesh(&[0.0, 0.0, 0.0, 1.0, 0.0, 0.0, 0.0, 1.0, 0.0], &[0, 1, 2]);
    let m1 = mesh(&[5.0, 5.0, 5.0, 6.0, 5.0, 5.0, 5.0, 6.0, 5.0], &[0, 1, 2]);
    let faces = gather_faces(&vec![m0, m1]).unwrap();
    assert_eq!(faces.len(), 2);
    assert_eq!(faces[0].v0, bits3(0.0, 0.0, 0.0));
    assert_eq!(faces[1].v0, bits3(5.0, 5.0, 5.0));
}

#[test]
fn trailing_partial_face_is_ignored() {
    let m = mesh(
        &[0.0, 0.0, 0.0, 1.0, 0.0, 0.0, 0.0, 1.0, 0.0],
        &[0, 1, 2, 2],
    );
    let faces = gather_faces(&vec![m]).unwrap();
    assert_eq!(faces.len(), 1);
}

#[test]
fn bounds_hug_a_scene_away_from_the_origin() {
    // The zero placeholder records take no part in the fold: a scene whose
    // every coordinate is at least 1 gets a box that excludes the origin.
    let m = mesh(
        &[
            1.0, 2.0, 3.0, //
            2.0, 2.0, 3.0, //
            1.0, 3.0, 4.0,
        ],
        &[0, 1, 2],
    );
    let faces = gather_faces(&vec![m]).unwrap();
    let n = face_normal([1.0, 2.0, 3.0], [2.0, 2.0, 3.0], [1.0, 3.0, 4.0]);
    assert!(n.is_some());
    let g = build_table(&faces, &vec![n]).unwrap();
    assert_eq!(g.bounds.min, bits3(1.0, 2.0, 3.0));
    assert_eq!(g.bounds.max, bits3(2.0, 3.0, 4.0));
}

#[test]
fn empty_mesh_list_gives_no_faces() {
    let faces = gather_faces(&Vec::new()).unwrap();
    assert_eq!(faces.len(), 0);
    let g = build_table(&faces, &Vec::new()).unwrap();
    assert_eq!(g.triangle_count, 0);
    assert_eq!(g.triangles.len(), TRIANGLE_CAPACITY);
    // A scene with no faces gets the zero box, the explicitly specified
    // empty-table case.
    assert_eq!(g.bounds.min, bits3(0.0, 0.0, 0.0));
    assert_eq!(g.bounds.max, bits3(0.0, 0.0, 0.0));
}
