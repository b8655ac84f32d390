use path_tracer::mesh::{Mesh, MeshBuilder, NormalIndex, VertexIndex};
use path_tracer::obj::{build_obj_mesh, Corner, LoadError, ObjPrimitive};

#[test]
fn builder_hands_out_sequential_indices() {
    let mut b: MeshBuilder<(f32, f32, f32)> = MeshBuilder::new();
    assert_eq!(b.push_vertex((0.0, 1.0, 0.0)), VertexIndex(0));
    assert_eq!(b.push_vertex((-1.0, 0.0, 0.0)), VertexIndex(1));
    assert_eq!(b.push_vertex((1.0, 0.0, 0.0)), VertexIndex(2));
    assert_eq!(b.push_normal((0.0, 0.0, 1.0)), NormalIndex(0));
    assert_eq!(b.push_normal((0.0, 1.0, 0.0)), NormalIndex(1));
}

#[test]
fn triangle_lookup_returns_each_corner() {
    let mut b: MeshBuilder<(f32, f32, f32)> = MeshBuilder::new();
    let v0 = b.push_vertex((0.0, 1.0, 0.0));
    let v1 = b.push_vertex((-1.0, 0.0, 0.0));
    let v2 = b.push_vertex((1.0, 0.0, 0.0));
    let v3 = b.push_vertex((0.0, 0.0, 1.0));
    let na = b.push_normal((0.0, 0.0, 1.0));
    let nb = b.push_normal((1.0, 0.0, 0.0));
    b.push_face(v0, na, v1, na, v2, nb);
    b.push_face(v3, nb, v2, na, v0, na);
    let m = b.build();
    assert_eq!(m.triangle_count(), 2);
    assert_eq!(m.vertices().len(), 4);
    assert_eq!(m.normals().len(), 2);
    assert_eq!(m.triangles(), &[(0, 1, 2), (3, 2, 0)]);
    let (a, b2, c) = m.triangle(1);
    assert_eq!(a.position, (0.0, 0.0, 1.0));
    assert_eq!(a.normal, (1.0, 0.0, 0.0));
    assert_eq!(b2.position, (1.0, 0.0, 0.0));
    assert_eq!(b2.normal, (0.0, 0.0, 1.0));
    assert_eq!(c.position, (0.0, 1.0, 0.0));
    assert_eq!(c.normal, (0.0, 0.0, 1.0));
}

#[test]
fn empty_mesh_has_nothing() {
    let m: Mesh<u8> = Mesh::new();
    assert_eq!(m.triangle_count(), 0);
    assert!(m.vertices().is_empty());
    assert!(m.normals().is_empty());
    let b: MeshBuilder<u8> = MeshBuilder::new();
    assert_eq!(b.build().triangle_count(), 0);
}

fn corner(vertex: usize, normal: Option<usize>) -> Corner {
    Corner { vertex, normal }
}

#[test]
fn obj_mesh_resolves_missing_normals_to_zero_slot() {
    let vertices = vec![10u32, 11, 12, 13];
    let normals = vec![20u32, 21];
    let prims = vec![
        ObjPrimitive::Triangle(corner(0, Some(1)), corner(1, None), corner(2, Some(7))),
        ObjPrimitive::Triangle(corner(3, Some(0)), corner(2, Some(1)), corner(1, Some(2))),
    ];
    let m = build_obj_mesh(vertices, normals, 0u32, &prims).unwrap();
    assert_eq!(m.vertices(), &[10, 11, 12, 13]);
    assert_eq!(m.normals(), &[20, 21, 0]);
    assert_eq!(m.triangles(), &[(0, 1, 2), (3, 2, 1)]);
    let (a, b, c) = m.triangle(0);
    assert_eq!((a.position, a.normal), (10, 21));
    assert_eq!((b.position, b.normal), (11, 0));
    assert_eq!((c.position, c.normal), (12, 0));
    let (a, b, c) = m.triangle(1);
    assert_eq!((a.position, a.normal), (13, 20));
    assert_eq!((b.position, b.normal), (12, 21));
    assert_eq!((c.position, c.normal), (11, 0));
}

#[test]
fn obj_mesh_without_primitives_is_empty_of_faces() {
    let m = build_obj_mesh(vec![1u8, 2], vec![], 0u8, &vec![]).unwrap();
    assert_eq!(m.triangle_count(), 0);
    assert_eq!(m.normals(), &[0]);
}

#[test]
fn obj_mesh_rejects_points_and_lines() {
    let prims = vec![ObjPrimitive::Point(corner(0, None))];
    assert_eq!(
        build_obj_mesh(vec![1u8], vec![], 0u8, &prims).err(),
        Some(LoadError::UnsupportedPrimitive)
    );
    let prims = vec![
        ObjPrimitive::Triangle(corner(0, None), corner(0, None), corner(0, None)),
        ObjPrimitive::Line(corner(0, None), corner(0, None)),
    ];
    assert_eq!(
        build_obj_mesh(vec![1u8], vec![], 0u8, &prims).err(),
        Some(LoadError::UnsupportedPrimitive)
    );
}

#[test]
fn obj_mesh_rejects_missing_vertex() {
    let prims = vec![ObjPrimitive::Triangle(corner(0, None), corner(1, None), corner(3, None))];
    assert_eq!(
        build_obj_mesh(vec![1u8, 2, 3], vec![], 0u8, &prims).err(),
        Some(LoadError::VertexOutOfRange)
    );
}

#[test]
fn obj_mesh_reports_first_fault_in_order() {
    let prims = vec![
        ObjPrimitive::Triangle(corner(0, None), corner(1, None), corner(9, None)),
        ObjPrimitive::Point(corner(0, None)),
    ];
    assert_eq!(
        build_obj_mesh(vec![1u8, 2, 3], vec![], 0u8, &prims).err(),
        Some(LoadError::VertexOutOfRange)
    );
    let prims = vec![
        ObjPrimitive::Point(corner(0, None)),
        ObjPrimitive::Triangle(corner(0, None), corner(1, None), corner(9, None)),
    ];
    assert_eq!(
        build_obj_mesh(vec![1u8, 2, 3], vec![], 0u8, &prims).err(),
        Some(LoadError::UnsupportedPrimitive)
    );
}

#[test]
fn tetrahedron_has_four_faces_over_four_corners() {
    let m = path_tracer::mesh::tetrahedron('t', 'l', 'r', 'f', 'n');
    assert_eq!(m.vertices(), &['t', 'l', 'r', 'f']);
    assert_eq!(m.normals(), &['n']);
    assert_eq!(m.triangles(), &[(0, 1, 2), (0, 1, 3), (2, 0, 3), (1, 2, 3)]);
    let (a, b, c) = m.triangle(2);
    assert_eq!((a.position, b.position, c.position), ('r', 't', 'f'));
    assert_eq!((a.normal, b.normal, c.normal), ('n', 'n', 'n'));
}
