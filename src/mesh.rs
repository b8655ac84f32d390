use vstd::prelude::*;

verus! {

/// Index of a vertex position in a mesh, as handed out by `MeshBuilder::push_vertex`.
#[derive(Clone, Copy, Debug, PartialEq, Eq, Structural)]
pub struct VertexIndex(pub u32);

/// Index of a vertex normal in a mesh, as handed out by `MeshBuilder::push_normal`.
#[derive(Clone, Copy, Debug, PartialEq, Eq, Structural)]
pub struct NormalIndex(pub u32);

/// One corner of a triangle: its position and its normal.
#[derive(Clone, Copy, Debug)]
pub struct Vertex<V> {
    pub position: V,
    pub normal: V,
}

/// The mathematical content of a mesh: position and normal arrays, and for
/// each triangle the indices of its three positions and its three normals.
pub ghost struct MeshData<V> {
    pub positions: Seq<V>,
    pub normals: Seq<V>,
    pub triangles: Seq<(u32, u32, u32)>,
    pub triangle_normals: Seq<(u32, u32, u32)>,
}

pub open spec fn triple_below(t: (u32, u32, u32), n: nat) -> bool {
    t.0 < n && t.1 < n && t.2 < n
}

pub open spec fn triple_at(t: (u32, u32, u32), k: int) -> u32 {
    if k == 0 {
        t.0
    } else if k == 1 {
        t.1
    } else {
        t.2
    }
}

impl<V> MeshData<V> {
    /// Every triangle refers only to existing positions and normals, and
    /// every index fits the 32-bit index type.
    pub open spec fn wf(self) -> bool {
        &&& self.positions.len() <= u32::MAX
        &&& self.normals.len() <= u32::MAX
        &&& self.triangles.len() == self.triangle_normals.len()
        &&& forall|i: int|
            0 <= i < self.triangles.len() ==> #[trigger] triple_below(
                self.triangles[i],
                self.positions.len(),
            )
        &&& forall|i: int|
            0 <= i < self.triangle_normals.len() ==> #[trigger] triple_below(
                self.triangle_normals[i],
                self.normals.len(),
            )
    }

    /// Corner `k` (0, 1 or 2) of triangle `i`.
    pub open spec fn corner(self, i: int, k: int) -> Vertex<V> {
        Vertex {
            position: self.positions[triple_at(self.triangles[i], k) as int],
            normal: self.normals[triple_at(self.triangle_normals[i], k) as int],
        }
    }

    pub open spec fn empty() -> MeshData<V> {
        MeshData {
            positions: Seq::empty(),
            normals: Seq::empty(),
            triangles: Seq::empty(),
            triangle_normals: Seq::empty(),
        }
    }
}

/// Incremental construction of a mesh: positions, normals and faces are
/// appended, and indices handed out refer to what has been appended so far.
pub struct MeshBuilder<V> {
    vertices: Vec<V>,
    normals: Vec<V>,
    triangles: Vec<(u32, u32, u32)>,
    triangles_normals: Vec<(u32, u32, u32)>,
}

impl<V> View for MeshBuilder<V> {
    type V = MeshData<V>;

    closed spec fn view(&self) -> MeshData<V> {
        MeshData {
            positions: self.vertices@,
            normals: self.normals@,
            triangles: self.triangles@,
            triangle_normals: self.triangles_normals@,
        }
    }
}

impl<V: Copy> MeshBuilder<V> {
    pub fn new() -> (r: Self)
        ensures
            r@ == MeshData::<V>::empty(),
            r@.wf(),
    {
        let r = MeshBuilder {
            vertices: Vec::new(),
            normals: Vec::new(),
            triangles: Vec::new(),
            triangles_normals: Vec::new(),
        };
        assert(r@ =~= MeshData::<V>::empty());
        r
    }

    /// Appends a normal and returns its index.
    pub fn push_normal(&mut self, n: V) -> (r: NormalIndex)
        requires
            old(self)@.wf(),
            old(self)@.normals.len() < u32::MAX,
        ensures
            final(self)@ == (MeshData { normals: old(self)@.normals.push(n), ..old(self)@ }),
            final(self)@.wf(),
            r.0 == old(self)@.normals.len(),
    {
        let idx = self.normals.len() as u32;
        self.normals.push(n);
        proof {
            assert forall|i: int| 0 <= i < self@.triangle_normals.len() implies #[trigger] triple_below(
                self@.triangle_normals[i],
                self@.normals.len(),
            ) by {
                assert(triple_below(old(self)@.triangle_normals[i], old(self)@.normals.len()));
            }
        }
        NormalIndex(idx)
    }

    /// Appends a vertex position and returns its index.
    pub fn push_vertex(&mut self, v: V) -> (r: VertexIndex)
        requires
            old(self)@.wf(),
            old(self)@.positions.len() < u32::MAX,
        ensures
            final(self)@ == (MeshData { positions: old(self)@.positions.push(v), ..old(self)@ }),
            final(self)@.wf(),
            r.0 == old(self)@.positions.len(),
    {
        let idx = self.vertices.len() as u32;
        self.vertices.push(v);
        proof {
            assert forall|i: int| 0 <= i < self@.triangles.len() implies #[trigger] triple_below(
                self@.triangles[i],
                self@.positions.len(),
            ) by {
                assert(triple_below(old(self)@.triangles[i], old(self)@.positions.len()));
            }
        }
        VertexIndex(idx)
    }

    /// Appends a triangle given by three (position, normal) index pairs.
    pub fn push_face(
        &mut self,
        v0: VertexIndex,
        n0: NormalIndex,
        v1: VertexIndex,
        n1: NormalIndex,
        v2: VertexIndex,
        n2: NormalIndex,
    )
        requires
            old(self)@.wf(),
            triple_below((v0.0, v1.0, v2.0), old(self)@.positions.len()),
            triple_below((n0.0, n1.0, n2.0), old(self)@.normals.len()),
        ensures
            final(self)@ == (MeshData {
                triangles: old(self)@.triangles.push((v0.0, v1.0, v2.0)),
                triangle_normals: old(self)@.triangle_normals.push((n0.0, n1.0, n2.0)),
                ..old(self)@
            }),
            final(self)@.wf(),
    {
        self.triangles.push((v0.0, v1.0, v2.0));
        self.triangles_normals.push((n0.0, n1.0, n2.0));
        proof {
            assert forall|i: int| 0 <= i < self@.triangles.len() implies #[trigger] triple_below(
                self@.triangles[i],
                self@.positions.len(),
            ) by {
                if i < old(self)@.triangles.len() {
                    assert(triple_below(old(self)@.triangles[i], old(self)@.positions.len()));
                }
            }
            assert forall|i: int| 0 <= i < self@.triangle_normals.len() implies #[trigger] triple_below(
                self@.triangle_normals[i],
                self@.normals.len(),
            ) by {
                if i < old(self)@.triangle_normals.len() {
                    assert(triple_below(old(self)@.triangle_normals[i], old(self)@.normals.len()));
                }
            }
        }
    }

    /// Freezes the builder into an immutable mesh with the same content.
    pub fn build(self) -> (r: Mesh<V>)
        requires
            self@.wf(),
        ensures
            r@ == self@,
            r.wf(),
    {
        Mesh {
            vertices: self.vertices,
            normals: self.normals,
            triangles: self.triangles,
            triangles_normals: self.triangles_normals,
        }
    }
}

/// A frozen, indexable triangle mesh.
pub struct Mesh<V> {
    vertices: Vec<V>,
    normals: Vec<V>,
    triangles: Vec<(u32, u32, u32)>,
    triangles_normals: Vec<(u32, u32, u32)>,
}

impl<V> View for Mesh<V> {
    type V = MeshData<V>;

    closed spec fn view(&self) -> MeshData<V> {
        MeshData {
            positions: self.vertices@,
            normals: self.normals@,
            triangles: self.triangles@,
            triangle_normals: self.triangles_normals@,
        }
    }
}

impl<V: Copy> Mesh<V> {
    pub open spec fn wf(&self) -> bool {
        self@.wf()
    }

    /// The empty mesh.
    pub fn new() -> (r: Self)
        ensures
            r@ == MeshData::<V>::empty(),
            r.wf(),
    {
        let r = Mesh {
            vertices: Vec::new(),
            normals: Vec::new(),
            triangles: Vec::new(),
            triangles_normals: Vec::new(),
        };
        assert(r@ =~= MeshData::<V>::empty());
        r
    }

    pub fn vertices(&self) -> (r: &[V])
        ensures
            r@ == self@.positions,
    {
        self.vertices.as_slice()
    }

    pub fn normals(&self) -> (r: &[V])
        ensures
            r@ == self@.normals,
    {
        self.normals.as_slice()
    }

    pub fn triangles(&self) -> (r: &[(u32, u32, u32)])
        ensures
            r@ == self@.triangles,
    {
        self.triangles.as_slice()
    }

    pub fn triangle_count(&self) -> (r: usize)
        ensures
            r == self@.triangles.len(),
    {
        self.triangles.len()
    }

    /// The three corners of triangle `i`, each with its position and normal.
    pub fn triangle(&self, i: usize) -> (r: (Vertex<V>, Vertex<V>, Vertex<V>))
        requires
            self.wf(),
            i < self@.triangles.len(),
        ensures
            r.0 == self@.corner(i as int, 0),
            r.1 == self@.corner(i as int, 1),
            r.2 == self@.corner(i as int, 2),
    {
        let (i0, i1, i2) = self.triangles[i];
        let (n0, n1, n2) = self.triangles_normals[i];
        assert(triple_below(self@.triangles[i as int], self@.positions.len()));
        assert(triple_below(self@.triangle_normals[i as int], self@.normals.len()));
        (
            Vertex { position: self.vertices[i0 as usize], normal: self.normals[n0 as usize] },
            Vertex { position: self.vertices[i1 as usize], normal: self.normals[n1 as usize] },
            Vertex { position: self.vertices[i2 as usize], normal: self.normals[n2 as usize] },
        )
    }
}

/// A tetrahedron over four positions (top, left, right, front) sharing one
/// normal: the faces (top, left, right), (top, left, front),
/// (right, top, front) and (left, right, front).
pub fn tetrahedron<V: Copy>(top: V, left: V, right: V, front: V, normal: V) -> (r: Mesh<V>)
    ensures
        r.wf(),
        r@ == (MeshData {
            positions: seq![top, left, right, front],
            normals: seq![normal],
            triangles: seq![(0u32, 1u32, 2u32), (0u32, 1u32, 3u32), (2u32, 0u32, 3u32), (1u32, 2u32, 3u32)],
            triangle_normals: seq![(0u32, 0u32, 0u32), (0u32, 0u32, 0u32), (0u32, 0u32, 0u32), (0u32, 0u32, 0u32)],
        }),
{
    let mut builder = MeshBuilder::new();
    let v0 = builder.push_vertex(top);
    let v1 = builder.push_vertex(left);
    let v2 = builder.push_vertex(right);
    let v3 = builder.push_vertex(front);
    let n = builder.push_normal(normal);
    builder.push_face(v0, n, v1, n, v2, n);
    builder.push_face(v0, n, v1, n, v3, n);
    builder.push_face(v2, n, v0, n, v3, n);
    builder.push_face(v1, n, v2, n, v3, n);
    let r = builder.build();
    assert(r@.positions =~= seq![top, left, right, front]);
    assert(r@.normals =~= seq![normal]);
    assert(r@.triangles =~= seq![(0u32, 1u32, 2u32), (0u32, 1u32, 3u32), (2u32, 0u32, 3u32), (1u32, 2u32, 3u32)]);
    assert(r@.triangle_normals =~= seq![(0u32, 0u32, 0u32), (0u32, 0u32, 0u32), (0u32, 0u32, 0u32), (0u32, 0u32, 0u32)]);
    r
}

} // verus!
