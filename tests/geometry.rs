use renderer::geometry::{build_mesh, check_indices, DrawKind, MalformedGeometry, Mesh, Object};

fn cube_vertices() -> Vec<[f32; 4]> {
    vec![
        [-0.5, -0.5, -0.5, 1.0],
        [0.5, -0.5, -0.5, 1.0],
        [0.5, -0.5, 0.5, 1.0],
        [-0.5, -0.5, 0.5, 1.0],
        [-0.5, 0.5, -0.5, 1.0],
        [0.5, 0.5, -0.5, 1.0],
        [0.5, 0.5, 0.5, 1.0],
        [-0.5, 0.5, 0.5, 1.0],
    ]
}

fn cube_indices() -> Vec<u32> {
    vec![
        0, 1, 2, 2, 3, 0, //
        0, 1, 4, 4, 5, 1, //
        1, 2, 5, 5, 6, 2, //
        2, 3, 6, 6, 7, 3, //
        3, 0, 7, 7, 4, 0, //
        4, 5, 6, 6, 7, 4, //
    ]
}

#[test]
fn valid_cube_keeps_counts() {
    let mesh = build_mesh(cube_vertices(), Some(cube_indices())).unwrap();
    assert_eq!(mesh.vertex_count(), 8);
    assert_eq!(mesh.index_count(), Some(36));
    assert_eq!(mesh.vertices(), &cube_vertices());
    assert_eq!(mesh.indices(), Some(&cube_indices()));
    assert_eq!(mesh.draw_kind(), DrawKind::Indexed { index_count: 36 });
}

#[test]
fn partial_triangle_is_refused() {
    let r = build_mesh(cube_vertices(), Some(vec![0, 1, 2, 3]));
    assert_eq!(r.err(), Some(MalformedGeometry::PartialTriangle { index_count: 4 }));
    let r = Mesh::new(cube_vertices(), vec![0, 1]);
    assert_eq!(r.err(), Some(MalformedGeometry::PartialTriangle { index_count: 2 }));
}

#[test]
fn out_of_range_index_is_refused() {
    let r = build_mesh(cube_vertices(), Some(vec![0, 1, 2, 3, 8, 4]));
    assert_eq!(
        r.err(),
        Some(MalformedGeometry::IndexOutOfBounds { position: 4, index: 8, vertex_count: 8 })
    );
}

#[test]
fn first_bad_index_is_reported() {
    let r = Mesh::new(vec![[0.0f32; 4]; 3], vec![0, 7, 9]);
    assert_eq!(
        r.err(),
        Some(MalformedGeometry::IndexOutOfBounds { position: 1, index: 7, vertex_count: 3 })
    );
}

#[test]
fn partial_triangle_wins_over_range() {
    let r = Mesh::new(vec![[0.0f32; 4]; 3], vec![5, 6, 7, 8]);
    assert_eq!(r.err(), Some(MalformedGeometry::PartialTriangle { index_count: 4 }));
}

#[test]
fn largest_valid_index_is_accepted() {
    let mesh = Mesh::new(vec![[0.0f32; 4]; 3], vec![2, 2, 2]).unwrap();
    assert_eq!(mesh.index_count(), Some(3));
}

#[test]
fn empty_index_list_is_valid() {
    let mesh = build_mesh(Vec::<[f32; 4]>::new(), Some(Vec::new())).unwrap();
    assert_eq!(mesh.vertex_count(), 0);
    assert_eq!(mesh.index_count(), Some(0));
    assert_eq!(mesh.draw_kind(), DrawKind::Indexed { index_count: 0 });
}

#[test]
fn index_into_no_vertices_is_refused() {
    let r = build_mesh(Vec::<[f32; 4]>::new(), Some(vec![0, 0, 0]));
    assert_eq!(
        r.err(),
        Some(MalformedGeometry::IndexOutOfBounds { position: 0, index: 0, vertex_count: 0 })
    );
}

#[test]
fn mesh_without_indices_draws_vertices() {
    let mesh = build_mesh(cube_vertices(), None).unwrap();
    assert_eq!(mesh.vertex_count(), 8);
    assert_eq!(mesh.index_count(), None);
    assert!(mesh.indices().is_none());
    assert_eq!(mesh.draw_kind(), DrawKind::NonIndexed { vertex_count: 8 });
    let pure = Mesh::new_pure(vec![[1.0f32; 4]; 36]);
    assert_eq!(pure.draw_kind(), DrawKind::NonIndexed { vertex_count: 36 });
}

#[test]
fn check_indices_alone() {
    assert_eq!(check_indices(&vec![0, 1, 2], 3), Ok(()));
    assert_eq!(
        check_indices(&vec![0, 1, 3], 3),
        Err(MalformedGeometry::IndexOutOfBounds { position: 2, index: 3, vertex_count: 3 })
    );
    assert_eq!(
        check_indices(&vec![0, 1, 2, 0, 1, 2, 0], 3),
        Err(MalformedGeometry::PartialTriangle { index_count: 7 })
    );
}

#[test]
fn object_keeps_mesh_kind_and_buffers() {
    let mesh = Mesh::new(cube_vertices(), cube_indices()).unwrap();
    let obj = Object::from_mesh(&mesh, "device buffers");
    assert_eq!(obj.draw(), DrawKind::Indexed { index_count: 36 });
    assert_eq!(*obj.buffers(), "device buffers");
}
