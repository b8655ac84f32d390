use vstd::prelude::*;
use crate::mesh::{MeshBuilder, Mesh, MeshData, VertexIndex, NormalIndex};

verus! {

/// One corner of a parsed OBJ primitive: a position index and, optionally,
/// a normal index (texture coordinates play no part in rendering).
#[derive(Clone, Copy, Debug, PartialEq, Eq, Structural)]
pub struct Corner {
    pub vertex: usize,
    pub normal: Option<usize>,
}

/// A primitive of a parsed OBJ object.
#[derive(Clone, Copy, Debug, PartialEq, Eq, Structural)]
pub enum ObjPrimitive {
    Point(Corner),
    Line(Corner, Corner),
    Triangle(Corner, Corner, Corner),
}

/// Why parsed OBJ data cannot become a mesh.
#[derive(Clone, Copy, Debug, PartialEq, Eq, Structural)]
pub enum LoadError {
    /// A point or a line: only triangles can be rendered.
    UnsupportedPrimitive,
    /// A corner refers to a position that the object does not have.
    VertexOutOfRange,
}

/// What goes wrong with one primitive, if anything, given the number of positions.
pub open spec fn primitive_error(p: ObjPrimitive, vertex_count: nat) -> Option<LoadError> {
    match p {
        ObjPrimitive::Triangle(a, b, c) => {
            if a.vertex < vertex_count && b.vertex < vertex_count && c.vertex < vertex_count {
                None
            } else {
                Some(LoadError::VertexOutOfRange)
            }
        },
        _ => Some(LoadError::UnsupportedPrimitive),
    }
}

/// The error of the first faulty primitive, in order, if there is one.
pub open spec fn first_error(ps: Seq<ObjPrimitive>, vertex_count: nat) -> Option<LoadError>
    decreases ps.len(),
{
    if ps.len() == 0 {
        None
    } else {
        match first_error(ps.drop_last(), vertex_count) {
            Some(e) => Some(e),
            None => primitive_error(ps.last(), vertex_count),
        }
    }
}

/// The normal slot that a corner uses: its own normal when it names one that
/// exists, else the zero normal stored right after the object's normals.
pub open spec fn normal_slot(n: Option<usize>, normal_count: nat) -> u32 {
    match n {
        Some(k) => if k < normal_count {
            k as u32
        } else {
            normal_count as u32
        },
        None => normal_count as u32,
    }
}

pub open spec fn face_positions(p: ObjPrimitive) -> (u32, u32, u32) {
    match p {
        ObjPrimitive::Triangle(a, b, c) => (a.vertex as u32, b.vertex as u32, c.vertex as u32),
        _ => (0, 0, 0),
    }
}

pub open spec fn face_normals(p: ObjPrimitive, normal_count: nat) -> (u32, u32, u32) {
    match p {
        ObjPrimitive::Triangle(a, b, c) => (
            normal_slot(a.normal, normal_count),
            normal_slot(b.normal, normal_count),
            normal_slot(c.normal, normal_count),
        ),
        _ => (0, 0, 0),
    }
}

/// The mesh that well-formed OBJ data describes: its positions, its normals
/// followed by one zero normal, and one face per triangle.
pub open spec fn obj_mesh<V>(
    positions: Seq<V>,
    normals: Seq<V>,
    zero_normal: V,
    ps: Seq<ObjPrimitive>,
) -> MeshData<V> {
    MeshData {
        positions: positions,
        normals: normals.push(zero_normal),
        triangles: Seq::new(ps.len(), |i: int| face_positions(ps[i])),
        triangle_normals: Seq::new(ps.len(), |i: int| face_normals(ps[i], normals.len())),
    }
}

/// Once some prefix of the primitives holds an error, the first error of the
/// whole sequence is that one.
proof fn lemma_first_error_prefix(ps: Seq<ObjPrimitive>, n: int, vertex_count: nat)
    requires
        0 <= n <= ps.len(),
        first_error(ps.take(n), vertex_count) is Some,
    ensures
        first_error(ps, vertex_count) == first_error(ps.take(n), vertex_count),
    decreases ps.len() - n,
{
    if n == ps.len() {
        assert(ps.take(n) =~= ps);
    } else {
        assert(ps.take(n + 1).drop_last() =~= ps.take(n));
        lemma_first_error_prefix(ps, n + 1, vertex_count);
    }
}

fn resolve_normal(n: Option<usize>, normal_count: usize) -> (r: NormalIndex)
    requires
        normal_count <= u32::MAX,
    ensures
        r.0 == normal_slot(n, normal_count as nat),
{
    match n {
        Some(k) => if k < normal_count {
            NormalIndex(k as u32)
        } else {
            NormalIndex(normal_count as u32)
        },
        None => NormalIndex(normal_count as u32),
    }
}

/// Builds the mesh of one parsed OBJ object from its positions, its normals
/// and its primitives. Corners without a usable normal get `zero_normal`,
/// stored after the object's own normals. Fails on the first primitive that
/// is not a triangle or that names a missing position.
pub fn build_obj_mesh<V: Copy>(
    vertices: Vec<V>,
    normals: Vec<V>,
    zero_normal: V,
    primitives: &Vec<ObjPrimitive>,
) -> (r: Result<Mesh<V>, LoadError>)
    requires
        vertices@.len() <= u32::MAX,
        normals@.len() < u32::MAX,
    ensures
        match r {
            Ok(m) => first_error(primitives@, vertices@.len()) is None && m.wf() && m@ == obj_mesh(
                vertices@,
                normals@,
                zero_normal,
                primitives@,
            ),
            Err(e) => first_error(primitives@, vertices@.len()) == Some(e),
        },
{
    let mut builder: MeshBuilder<V> = MeshBuilder::new();
    let nv = vertices.len();
    let nn = normals.len();
    let mut i: usize = 0;
    assert(vertices@.take(0) =~= Seq::<V>::empty());
    assert(builder@ == (MeshData { positions: vertices@.take(0), ..MeshData::<V>::empty() }));
    while i < nv
        invariant
            i <= nv,
            nv == vertices@.len(),
            nv <= u32::MAX,
            builder@.wf(),
            builder@ == (MeshData {
                positions: vertices@.take(i as int),
                ..MeshData::<V>::empty()
            }),
        decreases nv - i,
    {
        builder.push_vertex(vertices[i]);
        assert(vertices@.take(i as int).push(vertices@[i as int]) =~= vertices@.take(i + 1));
        i = i + 1;
    }
    assert(vertices@.take(nv as int) =~= vertices@);
    let mut j: usize = 0;
    assert(normals@.take(0) =~= Seq::<V>::empty());
    assert(builder@ == (MeshData {
        positions: vertices@,
        normals: normals@.take(0),
        ..MeshData::<V>::empty()
    }));
    while j < nn
        invariant
            j <= nn,
            nn == normals@.len(),
            nn < u32::MAX,
            builder@.wf(),
            builder@ == (MeshData {
                positions: vertices@,
                normals: normals@.take(j as int),
                ..MeshData::<V>::empty()
            }),
        decreases nn - j,
    {
        builder.push_normal(normals[j]);
        assert(normals@.take(j as int).push(normals@[j as int]) =~= normals@.take(j + 1));
        j = j + 1;
    }
    assert(normals@.take(nn as int) =~= normals@);
    let zero = builder.push_normal(zero_normal);
    let ghost expected = obj_mesh(vertices@, normals@, zero_normal, primitives@);
    let np = primitives.len();
    let mut k: usize = 0;
    while k < np
        invariant
            k <= np,
            np == primitives@.len(),
            nv == vertices@.len(),
            nn == normals@.len(),
            nv <= u32::MAX,
            nn < u32::MAX,
            zero.0 == nn,
            expected == obj_mesh(vertices@, normals@, zero_normal, primitives@),
            first_error(primitives@.take(k as int), nv as nat) is None,
            builder@.wf(),
            builder@.positions == expected.positions,
            builder@.normals == expected.normals,
            builder@.triangles == expected.triangles.take(k as int),
            builder@.triangle_normals == expected.triangle_normals.take(k as int),
        decreases np - k,
    {
        let p = primitives[k];
        assert(primitives@.take(k + 1).drop_last() =~= primitives@.take(k as int));
        assert(primitives@.take(k + 1).last() == p);
        match p {
            ObjPrimitive::Triangle(a, b, c) => {
                if a.vertex >= nv || b.vertex >= nv || c.vertex >= nv {
                    proof {
                        lemma_first_error_prefix(primitives@, k + 1, nv as nat);
                    }
                    return Err(LoadError::VertexOutOfRange);
                }
                let an = resolve_normal(a.normal, nn);
                let bn = resolve_normal(b.normal, nn);
                let cn = resolve_normal(c.normal, nn);
                builder.push_face(
                    VertexIndex(a.vertex as u32),
                    an,
                    VertexIndex(b.vertex as u32),
                    bn,
                    VertexIndex(c.vertex as u32),
                    cn,
                );
                assert(builder@.triangles =~= expected.triangles.take(k + 1));
                assert(builder@.triangle_normals =~= expected.triangle_normals.take(k + 1));
            },
            _ => {
                proof {
                    lemma_first_error_prefix(primitives@, k + 1, nv as nat);
                }
                return Err(LoadError::UnsupportedPrimitive);
            },
        }
        k = k + 1;
    }
    assert(primitives@.take(np as int) =~= primitives@);
    assert(builder@.triangles =~= expected.triangles);
    assert(builder@.triangle_normals =~= expected.triangle_normals);
    assert(builder@ == expected);
    Ok(builder.build())
}

} // verus!
