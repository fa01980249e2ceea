//! Scene loading: turning parsed mesh data into the fixed-capacity triangle
//! table, the valid-triangle count, and the scene bounding box.
//!
//! The file parser is an external collaborator; it hands this module plain
//! values: a flat position table and a flat index table per model (scalar
//! words are IEEE-754 bit patterns). Face normals are floating-point work and
//! are likewise computed outside; they arrive here one per face, `None`
//! marking a degenerate (zero-area) face, which is rejected rather than
//! uploaded as an undefined normal.

use vstd::prelude::*;
use crate::types::{
    le_bits, max_word, min_word, AssetLoadError, BoundingBox, Triangle, Vec3Bits,
};
use crate::TRIANGLE_CAPACITY;

verus! {

/// One parsed model: a flat table of vertex scalar words (three words per
/// vertex) and a flat table of vertex indices (three indices per face).
#[derive(Debug)]
pub struct MeshData {
    pub positions: Vec<u32>,
    pub indices: Vec<u32>,
}

/// The three vertices of one face, gathered out of the index space.
#[derive(Clone, Copy, Debug, PartialEq, Eq, Structural)]
pub struct FaceVertices {
    pub v0: Vec3Bits,
    pub v1: Vec3Bits,
    pub v2: Vec3Bits,
}

/// How many whole vertices the position table holds.
pub open spec fn vertex_count(positions: Seq<u32>) -> int {
    positions.len() as int / 3
}

/// The vertex at index `i` of the position table.
pub open spec fn vertex_at(positions: Seq<u32>, i: int) -> Vec3Bits {
    Vec3Bits {
        x: positions[3 * i],
        y: positions[3 * i + 1],
        z: positions[3 * i + 2],
    }
}

/// How many whole faces the index table holds.
pub open spec fn face_count(indices: Seq<u32>) -> int {
    indices.len() as int / 3
}

/// Every index of every whole face points at a whole vertex.
pub open spec fn mesh_indices_ok(m: MeshData) -> bool {
    forall|j: int|
        0 <= j < 3 * face_count(m.indices@) ==> (m.indices@[j] as int) < vertex_count(
            m.positions@,
        )
}

/// The gathered vertices of face `f` of one model.
pub open spec fn face_at(m: MeshData, f: int) -> FaceVertices {
    FaceVertices {
        v0: vertex_at(m.positions@, m.indices@[3 * f] as int),
        v1: vertex_at(m.positions@, m.indices@[3 * f + 1] as int),
        v2: vertex_at(m.positions@, m.indices@[3 * f + 2] as int),
    }
}

/// All faces of one model, in face order.
pub open spec fn mesh_faces(m: MeshData) -> Seq<FaceVertices> {
    Seq::new(face_count(m.indices@) as nat, |f: int| face_at(m, f))
}

/// Every model's index table is consistent with its position table.
pub open spec fn all_meshes_ok(meshes: Seq<MeshData>) -> bool {
    forall|k: int| 0 <= k < meshes.len() ==> mesh_indices_ok(#[trigger] meshes[k])
}

/// The faces of all models, models in order, faces in order within a model.
pub open spec fn all_faces(meshes: Seq<MeshData>) -> Seq<FaceVertices> {
    meshes.map_values(|m: MeshData| mesh_faces(m)).flatten()
}

/// Gathers the faces of every model into one flat list, in order.
///
/// Succeeds exactly when every vertex index of every whole face is in range;
/// a trailing partial face (an index count not divisible by three) is
/// ignored, as is a trailing partial vertex of the position table.
pub fn gather_faces(meshes: &Vec<MeshData>) -> (r: Result<Vec<FaceVertices>, AssetLoadError>)
    ensures
        match r {
            Ok(faces) => all_meshes_ok(meshes@) && faces@ == all_faces(meshes@),
            Err(e) => !all_meshes_ok(meshes@) && e == AssetLoadError::IndexOutOfRange,
        },
{
    let mut faces: Vec<FaceVertices> = Vec::new();
    let mut k: usize = 0;
    while k < meshes.len()
        invariant
            k <= meshes@.len(),
            forall|i: int| 0 <= i < k ==> mesh_indices_ok(#[trigger] meshes@[i]),
            faces@ == all_faces(meshes@.take(k as int)),
        decreases meshes@.len() - k,
    {
        let m = &meshes[k];
        let nverts = m.positions.len() / 3;
        let nfaces = m.indices.len() / 3;
        let ghost prior = faces@;
        let mut f: usize = 0;
        while f < nfaces
            invariant
                f <= nfaces,
                nverts == vertex_count(m.positions@),
                nfaces == face_count(m.indices@),
                m.indices@.len() <= usize::MAX,
                m.positions@.len() <= usize::MAX,
                k < meshes@.len(),
                m == &meshes@[k as int],
                forall|j: int|
                    0 <= j < 3 * f ==> (m.indices@[j] as int) < vertex_count(m.positions@),
                faces@ == prior + mesh_faces(*m).take(f as int),
            decreases nfaces - f,
        {
            proof {
                assert(3 * f + 2 < m.indices@.len()) by (nonlinear_arith)
                    requires
                        f < nfaces,
                        nfaces == m.indices@.len() as int / 3,
                ;
            }
            let i0 = m.indices[3 * f] as usize;
            let i1 = m.indices[3 * f + 1] as usize;
            let i2 = m.indices[3 * f + 2] as usize;
            if i0 >= nverts || i1 >= nverts || i2 >= nverts {
                proof {
                    assert(!mesh_indices_ok(meshes@[k as int]));
                }
                return Err(AssetLoadError::IndexOutOfRange);
            }
            proof {
                assert(3 * (i0 as int) + 2 < m.positions@.len() && 3 * (i1 as int) + 2
                    < m.positions@.len() && 3 * (i2 as int) + 2 < m.positions@.len())
                    by (nonlinear_arith)
                    requires
                        (i0 as int) < m.positions@.len() as int / 3,
                        (i1 as int) < m.positions@.len() as int / 3,
                        (i2 as int) < m.positions@.len() as int / 3,
                ;
            }
            let face = FaceVertices {
                v0: Vec3Bits {
                    x: m.positions[3 * i0],
                    y: m.positions[3 * i0 + 1],
                    z: m.positions[3 * i0 + 2],
                },
                v1: Vec3Bits {
                    x: m.positions[3 * i1],
                    y: m.positions[3 * i1 + 1],
                    z: m.positions[3 * i1 + 2],
                },
                v2: Vec3Bits {
                    x: m.positions[3 * i2],
                    y: m.positions[3 * i2 + 1],
                    z: m.positions[3 * i2 + 2],
                },
            };
            faces.push(face);
            proof {
                assert(face == face_at(meshes@[k as int], f as int));
                assert(mesh_faces(meshes@[k as int]).take(f + 1) =~= mesh_faces(
                    meshes@[k as int],
                ).take(f as int).push(face));
            }
            f = f + 1;
        }
        proof {
            let mapped = meshes@.take(k as int).map_values(|mm: MeshData| mesh_faces(mm));
            assert(mesh_faces(meshes@[k as int]).take(nfaces as int) =~= mesh_faces(
                meshes@[k as int],
            ));
            assert(meshes@.take(k + 1).map_values(|mm: MeshData| mesh_faces(mm)) =~= mapped.push(
                mesh_faces(meshes@[k as int]),
            ));
            mapped.lemma_flatten_push(mesh_faces(meshes@[k as int]));
        }
        k = k + 1;
    }
    proof {
        assert(meshes@.take(meshes@.len() as int) =~= meshes@);
    }
    Ok(faces)
}

/// Vertex `k` (0, 1 or 2) of a triangle record.
pub open spec fn vert_of(t: Triangle, k: int) -> Vec3Bits {
    if k == 0 {
        t.v0
    } else if k == 1 {
        t.v1
    } else {
        t.v2
    }
}

/// Component-wise scalar order of two vectors.
pub open spec fn le_vec(a: Vec3Bits, b: Vec3Bits) -> bool {
    le_bits(a.x, b.x) && le_bits(a.y, b.y) && le_bits(a.z, b.z)
}

/// The box holds the vertex on every axis.
pub open spec fn covers(b: BoundingBox, v: Vec3Bits) -> bool {
    le_vec(b.min, v) && le_vec(v, b.max)
}

/// The box holds every vertex of every record of the table.
pub open spec fn covers_table(ts: Seq<Triangle>, b: BoundingBox) -> bool {
    forall|i: int, k: int| 0 <= i < ts.len() && 0 <= k < 3 ==> covers(b, #[trigger] vert_of(ts[i], k))
}

/// The word `w` occurs as an x-coordinate of some vertex of the table.
pub open spec fn coord_x_in(ts: Seq<Triangle>, w: u32) -> bool {
    exists|i: int, k: int| 0 <= i < ts.len() && 0 <= k < 3 && (#[trigger] vert_of(ts[i], k)).x == w
}

/// The word `w` occurs as a y-coordinate of some vertex of the table.
pub open spec fn coord_y_in(ts: Seq<Triangle>, w: u32) -> bool {
    exists|i: int, k: int| 0 <= i < ts.len() && 0 <= k < 3 && (#[trigger] vert_of(ts[i], k)).y == w
}

/// The word `w` occurs as a z-coordinate of some vertex of the table.
pub open spec fn coord_z_in(ts: Seq<Triangle>, w: u32) -> bool {
    exists|i: int, k: int| 0 <= i < ts.len() && 0 <= k < 3 && (#[trigger] vert_of(ts[i], k)).z == w
}

/// Every corner coordinate of the box is a coordinate that actually occurs
/// in the table, so together with `covers_table` the box is exactly the
/// component-wise minimum and maximum of the table's vertices.
pub open spec fn bounds_attained(ts: Seq<Triangle>, b: BoundingBox) -> bool {
    &&& coord_x_in(ts, b.min.x)
    &&& coord_y_in(ts, b.min.y)
    &&& coord_z_in(ts, b.min.z)
    &&& coord_x_in(ts, b.max.x)
    &&& coord_y_in(ts, b.max.y)
    &&& coord_z_in(ts, b.max.z)
}

/// Coverage and attainment pin the bounding box down: any two boxes that
/// both hold every vertex of a non-empty table and whose corner
/// coordinates all occur in it are the same box. `compute_bounds`'s
/// contract therefore has exactly one solution.
pub proof fn lemma_bounds_exact(ts: Seq<Triangle>, b1: BoundingBox, b2: BoundingBox)
    requires
        ts.len() > 0,
        covers_table(ts, b1),
        bounds_attained(ts, b1),
        covers_table(ts, b2),
        bounds_attained(ts, b2),
    ensures
        b1 == b2,
{
    lemma_corner_words_equal(ts, b1, b2);
    lemma_corner_words_equal(ts, b2, b1);
    crate::types::lemma_le_bits_antisymmetric(b1.min.x, b2.min.x);
    crate::types::lemma_le_bits_antisymmetric(b1.min.y, b2.min.y);
    crate::types::lemma_le_bits_antisymmetric(b1.min.z, b2.min.z);
    crate::types::lemma_le_bits_antisymmetric(b1.max.x, b2.max.x);
    crate::types::lemma_le_bits_antisymmetric(b1.max.y, b2.max.y);
    crate::types::lemma_le_bits_antisymmetric(b1.max.z, b2.max.z);
}

/// One direction of `lemma_bounds_exact`: `b1`'s corners, being attained
/// in the table, are held by `b2`, so `b2`'s min is at or below `b1`'s and
/// `b2`'s max at or above.
proof fn lemma_corner_words_equal(ts: Seq<Triangle>, b1: BoundingBox, b2: BoundingBox)
    requires
        ts.len() > 0,
        bounds_attained(ts, b1),
        covers_table(ts, b2),
    ensures
        le_bits(b2.min.x, b1.min.x),
        le_bits(b2.min.y, b1.min.y),
        le_bits(b2.min.z, b1.min.z),
        le_bits(b1.max.x, b2.max.x),
        le_bits(b1.max.y, b2.max.y),
        le_bits(b1.max.z, b2.max.z),
{
    let (i1, k1): (int, int) = choose|i: int, k: int|
        0 <= i < ts.len() && 0 <= k < 3 && (#[trigger] vert_of(ts[i], k)).x == b1.min.x;
    assert(covers(b2, vert_of(ts[i1], k1)));
    let (i2, k2): (int, int) = choose|i: int, k: int|
        0 <= i < ts.len() && 0 <= k < 3 && (#[trigger] vert_of(ts[i], k)).y == b1.min.y;
    assert(covers(b2, vert_of(ts[i2], k2)));
    let (i3, k3): (int, int) = choose|i: int, k: int|
        0 <= i < ts.len() && 0 <= k < 3 && (#[trigger] vert_of(ts[i], k)).z == b1.min.z;
    assert(covers(b2, vert_of(ts[i3], k3)));
    let (i4, k4): (int, int) = choose|i: int, k: int|
        0 <= i < ts.len() && 0 <= k < 3 && (#[trigger] vert_of(ts[i], k)).x == b1.max.x;
    assert(covers(b2, vert_of(ts[i4], k4)));
    let (i5, k5): (int, int) = choose|i: int, k: int|
        0 <= i < ts.len() && 0 <= k < 3 && (#[trigger] vert_of(ts[i], k)).y == b1.max.y;
    assert(covers(b2, vert_of(ts[i5], k5)));
    let (i6, k6): (int, int) = choose|i: int, k: int|
        0 <= i < ts.len() && 0 <= k < 3 && (#[trigger] vert_of(ts[i], k)).z == b1.max.z;
    assert(covers(b2, vert_of(ts[i6], k6)));
}

/// Widens a candidate (min, max) pair so that it also holds the three
/// vertices of one triangle record, keeping every coordinate it returns
/// either from the candidate or from the record.
fn fold_triangle(mn: Vec3Bits, mx: Vec3Bits, t: Triangle) -> (r: (Vec3Bits, Vec3Bits))
    ensures
        le_vec(r.0, mn),
        le_vec(mx, r.1),
        forall|k: int| 0 <= k < 3 ==> covers(BoundingBox { min: r.0, max: r.1 }, #[trigger] vert_of(t, k)),
        r.0.x == mn.x || r.0.x == t.v0.x || r.0.x == t.v1.x || r.0.x == t.v2.x,
        r.0.y == mn.y || r.0.y == t.v0.y || r.0.y == t.v1.y || r.0.y == t.v2.y,
        r.0.z == mn.z || r.0.z == t.v0.z || r.0.z == t.v1.z || r.0.z == t.v2.z,
        r.1.x == mx.x || r.1.x == t.v0.x || r.1.x == t.v1.x || r.1.x == t.v2.x,
        r.1.y == mx.y || r.1.y == t.v0.y || r.1.y == t.v1.y || r.1.y == t.v2.y,
        r.1.z == mx.z || r.1.z == t.v0.z || r.1.z == t.v1.z || r.1.z == t.v2.z,
{
    let lo = Vec3Bits {
        x: min_word(min_word(min_word(mn.x, t.v0.x), t.v1.x), t.v2.x),
        y: min_word(min_word(min_word(mn.y, t.v0.y), t.v1.y), t.v2.y),
        z: min_word(min_word(min_word(mn.z, t.v0.z), t.v1.z), t.v2.z),
    };
    let hi = Vec3Bits {
        x: max_word(max_word(max_word(mx.x, t.v0.x), t.v1.x), t.v2.x),
        y: max_word(max_word(max_word(mx.y, t.v0.y), t.v1.y), t.v2.y),
        z: max_word(max_word(max_word(mx.z, t.v0.z), t.v1.z), t.v2.z),
    };
    (lo, hi)
}

/// Folds the component-wise minimum and maximum corner over every vertex of
/// every record of the (non-empty) table, in scalar (float) order.
pub fn compute_bounds(triangles: &Vec<Triangle>) -> (b: BoundingBox)
    requires
        triangles@.len() > 0,
    ensures
        covers_table(triangles@, b),
        bounds_attained(triangles@, b),
        le_vec(b.min, b.max),
{
    let first = triangles[0];
    let mut mn = first.v0;
    let mut mx = first.v0;
    proof {
        assert(vert_of(triangles@[0], 0) == first.v0);
    }
    let mut i: usize = 0;
    while i < triangles.len()
        invariant
            i <= triangles@.len(),
            triangles@.len() > 0,
            forall|j: int, k: int|
                0 <= j < i && 0 <= k < 3 ==> covers(
                    BoundingBox { min: mn, max: mx },
                    #[trigger] vert_of(triangles@[j], k),
                ),
            coord_x_in(triangles@, mn.x),
            coord_y_in(triangles@, mn.y),
            coord_z_in(triangles@, mn.z),
            coord_x_in(triangles@, mx.x),
            coord_y_in(triangles@, mx.y),
            coord_z_in(triangles@, mx.z),
            le_vec(mn, mx),
        decreases triangles@.len() - i,
    {
        let t = triangles[i];
        let (nmn, nmx) = fold_triangle(mn, mx, t);
        proof {
            let ghost ts = triangles@;
            assert(t == ts[i as int]);
            assert forall|j: int, k: int| 0 <= j < i + 1 && 0 <= k < 3 implies covers(
                BoundingBox { min: nmn, max: nmx },
                #[trigger] vert_of(ts[j], k),
            ) by {
                if j < i {
                    assert(covers(BoundingBox { min: mn, max: mx }, vert_of(ts[j], k)));
                } else {
                    assert(covers(BoundingBox { min: nmn, max: nmx }, vert_of(t, k)));
                }
            }
            assert(vert_of(ts[i as int], 0) == t.v0 && vert_of(ts[i as int], 1) == t.v1
                && vert_of(ts[i as int], 2) == t.v2);
        }
        mn = nmn;
        mx = nmx;
        i = i + 1;
    }
    proof {
        assert(covers(BoundingBox { min: mn, max: mx }, vert_of(triangles@[0], 0)));
    }
    BoundingBox { min: mn, max: mx }
}

/// The table record a real face becomes: its vertices, its face normal, and
/// the default material.
pub open spec fn real_triangle(fv: FaceVertices, n: Vec3Bits) -> Triangle {
    Triangle { v0: fv.v0, v1: fv.v1, v2: fv.v2, normal: n, material_index: 0 }
}

/// The finished scene geometry: the padded triangle table (always exactly
/// `TRIANGLE_CAPACITY` records), the count of real records at its front, and
/// the bounding box of the scene's geometry — the smallest box, in scalar
/// (float) order, holding every vertex of the real records; the zero
/// placeholders take no part in it.
#[derive(Debug)]
pub struct SceneGeometry {
    pub triangles: Vec<Triangle>,
    pub triangle_count: u32,
    pub bounds: BoundingBox,
}

/// Builds the fixed-capacity triangle table out of gathered faces and their
/// externally computed unit normals (`None` marks a degenerate face).
///
/// Succeeds exactly when the real face count fits the capacity and no face
/// is degenerate; more faces than the capacity is a configuration error
/// (the kernel's table size is fixed), never a silent truncation.
///
/// The bounds are folded over the real records alone, so they are exactly
/// the smallest box holding the scene's geometry; a scene with no faces
/// gets the zero box, stated below explicitly.
pub fn build_table(faces: &Vec<FaceVertices>, normals: &Vec<Option<Vec3Bits>>) -> (r: Result<
    SceneGeometry,
    AssetLoadError,
>)
    requires
        faces@.len() == normals@.len(),
    ensures
        match r {
            Ok(g) => {
                &&& faces@.len() <= TRIANGLE_CAPACITY
                &&& forall|f: int| 0 <= f < normals@.len() ==> (#[trigger] normals@[f]) is Some
                &&& g.triangle_count == faces@.len()
                &&& g.triangles@.len() == TRIANGLE_CAPACITY
                &&& forall|i: int|
                    0 <= i < faces@.len() ==> g.triangles@[i] == real_triangle(
                        faces@[i],
                        (#[trigger] normals@[i]).unwrap(),
                    )
                &&& forall|i: int|
                    faces@.len() <= i < TRIANGLE_CAPACITY ==> #[trigger] g.triangles@[i]
                        == Triangle::placeholder_spec()
                &&& g.triangle_count >= 1 ==> covers_table(
                    g.triangles@.take(g.triangle_count as int),
                    g.bounds,
                ) && bounds_attained(g.triangles@.take(g.triangle_count as int), g.bounds)
                    && le_vec(g.bounds.min, g.bounds.max)
                &&& g.triangle_count == 0 ==> g.bounds == (BoundingBox {
                    min: Vec3Bits::zero_spec(),
                    max: Vec3Bits::zero_spec(),
                })
            },
            Err(AssetLoadError::CapacityOverflow { triangle_count }) => {
                &&& faces@.len() > TRIANGLE_CAPACITY
                &&& triangle_count == faces@.len()
            },
            Err(AssetLoadError::DegenerateFace { face }) => {
                &&& faces@.len() <= TRIANGLE_CAPACITY
                &&& 0 <= face < normals@.len()
                &&& normals@[face as int] is None
                &&& forall|j: int| 0 <= j < face ==> (#[trigger] normals@[j]) is Some
            },
            Err(AssetLoadError::IndexOutOfRange) => false,
        },
{
    if faces.len() > TRIANGLE_CAPACITY {
        return Err(AssetLoadError::CapacityOverflow { triangle_count: faces.len() });
    }
    let mut triangles: Vec<Triangle> = Vec::new();
    let mut f: usize = 0;
    while f < faces.len()
        invariant
            f <= faces@.len(),
            faces@.len() == normals@.len(),
            faces@.len() <= TRIANGLE_CAPACITY,
            triangles@.len() == f,
            forall|j: int| 0 <= j < f ==> (#[trigger] normals@[j]) is Some,
            forall|i: int|
                0 <= i < f ==> triangles@[i] == real_triangle(
                    faces@[i],
                    (#[trigger] normals@[i]).unwrap(),
                ),
        decreases faces@.len() - f,
    {
        match &normals[f] {
            Some(n) => {
                let fv = faces[f];
                triangles.push(Triangle {
                    v0: fv.v0,
                    v1: fv.v1,
                    v2: fv.v2,
                    normal: *n,
                    material_index: 0,
                });
            },
            None => {
                return Err(AssetLoadError::DegenerateFace { face: f });
            },
        }
        f = f + 1;
    }
    // The bounds fold over the real records, before the placeholders come
    // in: the box is the scene's geometry, not the padding.
    let ghost front = triangles@;
    let bounds = if triangles.len() == 0 {
        BoundingBox { min: Vec3Bits::zero(), max: Vec3Bits::zero() }
    } else {
        compute_bounds(&triangles)
    };
    while triangles.len() < TRIANGLE_CAPACITY
        invariant
            faces@.len() <= triangles@.len() <= TRIANGLE_CAPACITY,
            faces@.len() == normals@.len(),
            front.len() == faces@.len(),
            triangles@.take(front.len() as int) == front,
            forall|j: int| 0 <= j < faces@.len() ==> (#[trigger] normals@[j]) is Some,
            forall|i: int|
                0 <= i < faces@.len() ==> triangles@[i] == real_triangle(
                    faces@[i],
                    (#[trigger] normals@[i]).unwrap(),
                ),
            forall|i: int|
                faces@.len() <= i < triangles@.len() ==> #[trigger] triangles@[i]
                    == Triangle::placeholder_spec(),
        decreases TRIANGLE_CAPACITY - triangles@.len(),
    {
        triangles.push(Triangle::placeholder());
        proof {
            assert(triangles@.take(front.len() as int) =~= front);
        }
    }
    proof {
        assert(front.take(front.len() as int) =~= front);
    }
    let count = faces.len() as u32;
    Ok(SceneGeometry { triangles, triangle_count: count, bounds })
}

} // verus!
