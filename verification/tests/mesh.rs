use obito::mesh::frame_draws;
use obito::mesh::index_buffer_contents;
use obito::mesh::mesh_indices;
use obito::mesh::vertex_count;
use obito::mesh::DrawCall;
use obito::mesh::MeshKind;

#[test]
fn cube_index_list() {
    assert_eq!(
        mesh_indices(MeshKind::Cube),
        vec![
            0u16, 1, 2, 2, 3, 0, 1, 5, 6, 6, 2, 1, 7, 6, 5, 5, 4, 7, 4, 0, 3, 3, 7, 4, 4, 5, 1,
            1, 0, 4, 3, 2, 6, 6, 7, 3,
        ]
    );
    assert_eq!(vertex_count(MeshKind::Cube), 8);
}

#[test]
fn grid_index_list() {
    assert_eq!(mesh_indices(MeshKind::Grid), vec![0u16, 1, 2, 2, 3, 0]);
    assert_eq!(vertex_count(MeshKind::Grid), 4);
}

#[test]
fn index_lists_are_triangle_lists_over_their_vertices() {
    for kind in [MeshKind::Grid, MeshKind::Cube] {
        let idx = mesh_indices(kind);
        let n = vertex_count(kind);
        assert_eq!(idx.len() % 3, 0);
        assert!(idx.iter().all(|&i| (i as usize) < n));
        for t in idx.chunks(3) {
            assert!(t[0] != t[1] && t[1] != t[2] && t[0] != t[2]);
        }
        for v in 0..n {
            assert!(idx.contains(&(v as u16)));
        }
    }
}

#[test]
fn index_buffer_holds_the_indices_in_native_byte_order() {
    for kind in [MeshKind::Grid, MeshKind::Cube] {
        let idx = mesh_indices(kind);
        let expected: Vec<u8> = idx.iter().flat_map(|i| i.to_ne_bytes()).collect();
        let bytes = index_buffer_contents(kind);
        assert_eq!(bytes.len(), 2 * idx.len());
        assert_eq!(bytes, expected);
    }
}

#[test]
fn cube_index_buffer_bytes() {
    let bytes = index_buffer_contents(MeshKind::Cube);
    assert_eq!(bytes.len(), 72);
    assert_eq!(u16::from_ne_bytes([bytes[6], bytes[7]]), 2);
    assert_eq!(u16::from_ne_bytes([bytes[70], bytes[71]]), 3);
}

#[test]
fn frame_draws_grid_then_cube() {
    assert_eq!(
        frame_draws(),
        vec![
            DrawCall { mesh: MeshKind::Grid, index_count: 6, instance_count: 1 },
            DrawCall { mesh: MeshKind::Cube, index_count: 36, instance_count: 1 },
        ]
    );
}

#[test]
fn each_draw_covers_its_whole_mesh() {
    for d in frame_draws() {
        assert_eq!(d.index_count as usize, mesh_indices(d.mesh).len());
    }
}
