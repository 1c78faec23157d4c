use img::math::{idx_to_xy, xy_to_idx};

#[test]
fn idx_to_xy_row_major() {
    assert_eq!(idx_to_xy(0, 1), (0, 0));
    assert_eq!(idx_to_xy(0, 100), (0, 0));
    assert_eq!(idx_to_xy(10, 100), (10, 0));
    assert_eq!(idx_to_xy(10, 1), (0, 10));
    assert_eq!(idx_to_xy(10, 3), (1, 3));
    assert_eq!(idx_to_xy(10, 10), (0, 1));
}

#[test]
fn xy_to_idx_row_major() {
    assert_eq!(xy_to_idx((0, 0), 1), 0);
    assert_eq!(xy_to_idx((0, 0), 100), 0);
    assert_eq!(xy_to_idx((10, 0), 100), 10);
    assert_eq!(xy_to_idx((0, 10), 1), 10);
    assert_eq!(xy_to_idx((1, 3), 3), 10);
    assert_eq!(xy_to_idx((0, 1), 10), 10);
}

#[test]
fn idx_xy_roundtrip() {
    for width in 1..7usize {
        for idx in 0..50usize {
            assert_eq!(xy_to_idx(idx_to_xy(idx, width), width), idx);
        }
    }
}
