use gltut::layout::{Blocks, Offsets, FLOAT_BYTES, INDEX_BYTES};

#[test]
fn element_sizes() {
    assert_eq!(FLOAT_BYTES, 4);
    assert_eq!(INDEX_BYTES, 2);
}

#[test]
fn a_buffer_of_positions_only() {
    let blocks = Blocks::new(3, 4, 0).unwrap();
    assert_eq!(blocks.vertices(), 3);
    assert_eq!(blocks.position_components(), 4);
    assert_eq!(blocks.color_components(), 0);
    assert_eq!(blocks.floats(), 12);
    assert_eq!(blocks.total_bytes(), 48);
    assert_eq!(blocks.offsets(0), Some(Offsets { position: 0, color: 48 }));
    assert_eq!(blocks.offsets(1), Some(Offsets { position: 16, color: 48 }));
}

#[test]
fn equal_blocks_meet_halfway() {
    let blocks = Blocks::new(36, 4, 4).unwrap();
    assert_eq!(blocks.floats(), 288);
    assert_eq!(blocks.total_bytes(), 1152);
    let start = blocks.offsets(0).unwrap();
    assert_eq!(start, Offsets { position: 0, color: 576 });
    assert_eq!(start.color as isize, blocks.total_bytes() / 2);
    assert_eq!(start.color, blocks.floats() * FLOAT_BYTES / 2);
}

#[test]
fn unequal_blocks() {
    let blocks = Blocks::new(36, 3, 4).unwrap();
    assert_eq!(blocks.floats(), 252);
    assert_eq!(blocks.total_bytes(), 1008);
    assert_eq!(blocks.offsets(0), Some(Offsets { position: 0, color: 432 }));
    assert_eq!(blocks.offsets(18), Some(Offsets { position: 216, color: 720 }));
    assert_eq!(blocks.offsets(1), Some(Offsets { position: 12, color: 448 }));
}

#[test]
fn the_size_is_four_bytes_a_float() {
    for (vertices, position, color) in [(0, 0, 0), (1, 1, 1), (3, 4, 0), (36, 3, 4), (7, 2, 5), (1000, 4, 4)] {
        let blocks = Blocks::new(vertices, position, color).unwrap();
        assert_eq!(blocks.floats(), vertices * (position + color));
        assert_eq!(blocks.total_bytes(), (blocks.floats() * FLOAT_BYTES) as isize);
    }
}

#[test]
fn offsets_exist_up_to_the_end_of_the_buffer() {
    let blocks = Blocks::new(36, 3, 4).unwrap();
    assert_eq!(blocks.offsets(35), Some(Offsets { position: 420, color: 992 }));
    assert_eq!(blocks.offsets(36), Some(Offsets { position: 432, color: 1008 }));
    assert_eq!(blocks.offsets(37), None);
    assert_eq!(blocks.offsets(usize::MAX), None);
}

#[test]
fn every_attribute_lies_in_its_block() {
    for (vertices, position, color) in [(3usize, 4usize, 0usize), (36, 4, 4), (36, 3, 4), (5, 1, 2)] {
        let blocks = Blocks::new(vertices, position, color).unwrap();
        let colors = blocks.offsets(0).unwrap().color;
        let total = blocks.total_bytes() as usize;
        for vertex in 0..vertices {
            let at = blocks.offsets(vertex).unwrap();
            assert!(at.position + position * FLOAT_BYTES <= colors);
            assert!(colors <= at.color);
            assert!(at.color + color * FLOAT_BYTES <= total);
        }
    }
}

#[test]
fn an_object_counts_its_vertices_from_its_first() {
    let blocks = Blocks::new(36, 3, 4).unwrap();
    let object = blocks.offsets(18).unwrap();
    for vertex in 0..18 {
        let whole = blocks.offsets(18 + vertex).unwrap();
        assert_eq!(object.position + vertex * 3 * FLOAT_BYTES, whole.position);
        assert_eq!(object.color + vertex * 4 * FLOAT_BYTES, whole.color);
    }
}

#[test]
fn an_empty_buffer_has_any_components() {
    let blocks = Blocks::new(0, usize::MAX, usize::MAX).unwrap();
    assert_eq!(blocks.floats(), 0);
    assert_eq!(blocks.total_bytes(), 0);
    assert_eq!(blocks.offsets(0), Some(Offsets { position: 0, color: 0 }));
    assert_eq!(blocks.offsets(1), None);
}

#[test]
fn vertices_without_components_take_no_room() {
    let blocks = Blocks::new(usize::MAX, 0, 0).unwrap();
    assert_eq!(blocks.floats(), 0);
    assert_eq!(blocks.total_bytes(), 0);
    assert_eq!(blocks.offsets(usize::MAX), Some(Offsets { position: 0, color: 0 }));
}

#[test]
fn the_largest_buffer() {
    let most = isize::MAX as usize / FLOAT_BYTES;
    let blocks = Blocks::new(most, 1, 0).unwrap();
    assert_eq!(blocks.total_bytes(), (most * FLOAT_BYTES) as isize);
    assert!(Blocks::new(most, 0, 1).is_some());
    assert!(Blocks::new(1, most, 0).is_some());
    assert!(Blocks::new(most + 1, 1, 0).is_none());
    assert!(Blocks::new(most, 1, 1).is_none());
    assert!(Blocks::new(1, most, 1).is_none());
}

#[test]
fn a_buffer_too_large_is_refused() {
    assert!(Blocks::new(usize::MAX, 1, 0).is_none());
    assert!(Blocks::new(1, usize::MAX, 1).is_none());
    assert!(Blocks::new(2, usize::MAX / 2, usize::MAX / 2).is_none());
    assert!(Blocks::new(usize::MAX / 4 + 1, 4, 0).is_none());
    assert!(Blocks::new(1 << (usize::BITS / 2), 1 << (usize::BITS / 2), 0).is_none());
}
