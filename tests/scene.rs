use slugma::scene::instance_offsets;

#[test]
fn grid_of_two_per_axis() {
    let offsets = instance_offsets(2, 3);
    assert_eq!(
        offsets,
        vec![
            (3, 3, 3),
            (3, 3, 6),
            (3, 6, 3),
            (3, 6, 6),
            (6, 3, 3),
            (6, 3, 6),
            (6, 6, 3),
            (6, 6, 6),
        ]
    );
}

#[test]
fn empty_grid() {
    assert!(instance_offsets(0, 2).is_empty());
}

#[test]
fn scene_grid_size_and_corners() {
    let offsets = instance_offsets(99, 2);
    assert_eq!(offsets.len(), 99 * 99 * 99);
    assert_eq!(offsets[0], (2, 2, 2));
    assert_eq!(offsets[1], (2, 2, 4));
    assert_eq!(offsets[99], (2, 4, 2));
    assert_eq!(offsets[99 * 99], (4, 2, 2));
    assert_eq!(offsets[offsets.len() - 1], (198, 198, 198));
}
