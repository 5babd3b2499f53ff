use three_d::shaded_edges::{cylinder_indices, unique_edge_pairs, Edge};

#[test]
fn single_triangle_has_three_edges() {
    let indices = [0u32, 1, 2];
    let edges = unique_edge_pairs(&indices);
    assert_eq!(edges.len(), 3);
    assert!(edges.contains(&Edge { a: 0, b: 1 }));
    assert!(edges.contains(&Edge { a: 0, b: 2 }));
    assert!(edges.contains(&Edge { a: 1, b: 2 }));
}

#[test]
fn edges_are_normalized_and_unique() {
    // both faces read overlapping index windows, so shared edges repeat in
    // the input and must appear only once in the output
    let indices = [2u32, 1, 0, 0, 1, 2];
    let edges = unique_edge_pairs(&indices);
    for edge in &edges {
        assert!(edge.a <= edge.b);
    }
    for (i, first) in edges.iter().enumerate() {
        for second in edges.iter().skip(i + 1) {
            assert_ne!(first, second);
        }
    }
    assert!(edges.contains(&Edge { a: 0, b: 1 }));
    assert!(edges.contains(&Edge { a: 0, b: 2 }));
    assert!(edges.contains(&Edge { a: 1, b: 2 }));
}

#[test]
fn cylinder_tube_triangulation() {
    // one segment, three ring positions: three quads of two triangles
    let indices = cylinder_indices(1, 3);
    assert_eq!(indices.len(), 18);
    assert_eq!(&indices[0..6], &[0, 1, 4, 0, 4, 3]);
    assert_eq!(&indices[6..12], &[1, 2, 5, 1, 5, 4]);
    // the last quad wraps around to ring position zero
    assert_eq!(&indices[12..18], &[2, 0, 3, 2, 3, 5]);

    // a second segment continues from the next ring
    let indices = cylinder_indices(2, 3);
    assert_eq!(indices.len(), 36);
    assert_eq!(&indices[18..24], &[3, 4, 7, 3, 7, 6]);
}

#[test]
fn no_full_face_window_means_no_edges() {
    let indices = [7u32, 9];
    let edges = unique_edge_pairs(&indices);
    assert!(edges.is_empty());
}
