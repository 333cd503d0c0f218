use voxrender::depth::DepthBuffer;

#[test]
fn new_buffer_is_clear() {
    let b = DepthBuffer::new(3, 2);
    assert_eq!(b.iter().len(), 6);
    for cell in b.iter() {
        assert_eq!(*cell, ((0, 0, 0, 0), 0));
    }
    assert_eq!(*b.depth_at(2, 1), 0);
}

#[test]
fn add_keeps_the_greatest_depth() {
    let mut b = DepthBuffer::new(2, 2);
    b.add(1, 0, (10, 20, 30, 40), 5);
    assert_eq!(*b.depth_at(1, 0), 5);
    assert_eq!(b.iter()[1], ((10, 20, 30, 40), 5));

    // a shallower write leaves the cell untouched
    b.add(1, 0, (1, 1, 1, 1), 3);
    assert_eq!(b.iter()[1], ((10, 20, 30, 40), 5));

    // an equal depth leaves the cell untouched too
    b.add(1, 0, (2, 2, 2, 2), 5);
    assert_eq!(b.iter()[1], ((10, 20, 30, 40), 5));

    // only a deeper write replaces it
    b.add(1, 0, (7, 7, 7, 7), 9);
    assert_eq!(b.iter()[1], ((7, 7, 7, 7), 9));

    // other cells never move
    assert_eq!(b.iter()[0], ((0, 0, 0, 0), 0));
    assert_eq!(*b.depth_at(0, 1), 0);
}

#[test]
fn add_addresses_row_major() {
    let mut b = DepthBuffer::new(3, 2);
    b.add(2, 1, (9, 9, 9, 9), 1);
    assert_eq!(b.iter()[2 + 1 * 3], ((9, 9, 9, 9), 1));
}
