use wgpu_app::geometry::fan_indices;

#[test]
fn fan_of_three_segments() {
    assert_eq!(fan_indices(3), vec![0, 1, 2, 0, 2, 3, 0, 3, 4]);
}

#[test]
fn fan_of_no_segments_is_empty() {
    assert!(fan_indices(0).is_empty());
}

#[test]
fn fan_indices_stay_below_vertex_count() {
    let segments = 64u32;
    let indices = fan_indices(segments);
    assert_eq!(indices.len(), 3 * 64);
    assert!(indices.iter().all(|&i| i <= segments + 1));
}

#[test]
fn fan_triangles_share_rim_edges() {
    let indices = fan_indices(10);
    for t in 0..10usize {
        assert_eq!(indices[3 * t], 0);
        assert_eq!(indices[3 * t + 1] + 1, indices[3 * t + 2]);
        if t + 1 < 10 {
            assert_eq!(indices[3 * t + 2], indices[3 * (t + 1) + 1]);
        }
    }
}
