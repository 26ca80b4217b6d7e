use mountain_gl::layout::{
    draw_count, pair_streams, vertex_attributes, vertex_buffer_bytes, AttributeLayout,
    VERTEX_STRIDE,
};

#[test]
fn attributes_are_position_then_color() {
    let a = vertex_attributes();
    assert_eq!(
        a,
        vec![
            AttributeLayout { location: 0, components: 3, stride: 24, offset: 0 },
            AttributeLayout { location: 1, components: 3, stride: 24, offset: 12 },
        ]
    );
    assert_eq!(VERTEX_STRIDE, 24);
}

#[test]
fn buffer_sizes() {
    assert_eq!(vertex_buffer_bytes(0), Some(0));
    assert_eq!(vertex_buffer_bytes(36), Some(864));
    assert_eq!(vertex_buffer_bytes(usize::MAX), None);
    assert_eq!(vertex_buffer_bytes(isize::MAX as usize / 24), Some((isize::MAX as usize / 24 * 24) as isize));
    assert_eq!(vertex_buffer_bytes(isize::MAX as usize / 24 + 1), None);
}

#[test]
fn draw_counts() {
    assert_eq!(draw_count(2400), Some(2400));
    assert_eq!(draw_count(i32::MAX as usize), Some(i32::MAX));
    assert_eq!(draw_count(i32::MAX as usize + 1), None);
}

#[test]
fn streams_pair_by_index() {
    let p = vec![(1u8, 2u8, 3u8), (4, 5, 6)];
    let c = vec![(7u8, 8u8, 9u8), (10, 11, 12)];
    assert_eq!(
        pair_streams(&p, &c),
        Some(vec![((1, 2, 3), (7, 8, 9)), ((4, 5, 6), (10, 11, 12))])
    );
}

#[test]
fn streams_of_unequal_length_do_not_pair() {
    let p = vec![1u32, 2, 3];
    let c = vec![1u32, 2];
    assert_eq!(pair_streams(&p, &c), None);
}
