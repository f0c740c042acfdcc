use rev_slice::flip::flip_fencepost;
use rev_slice::flip::flip_index;
use rev_slice::flip::flip_range;

#[test]
fn flip_index_counts_from_the_back() {
    assert_eq!(flip_index(7, 0), 6);
    assert_eq!(flip_index(7, 1), 5);
    assert_eq!(flip_index(7, 6), 0);
    assert_eq!(flip_index(1, 0), 0);
    for i in 0..7 {
        assert_eq!(flip_index(7, flip_index(7, i)), i);
    }
}

#[test]
fn flip_fencepost_counts_boundaries_from_the_back() {
    assert_eq!(flip_fencepost(7, 0), 7);
    assert_eq!(flip_fencepost(7, 3), 4);
    assert_eq!(flip_fencepost(7, 7), 0);
    assert_eq!(flip_fencepost(0, 0), 0);
}

#[test]
fn flip_range_swaps_the_boundaries() {
    assert_eq!(flip_range(7, 1..4), 3..6);
    assert_eq!(flip_range(7, 0..7), 0..7);
    assert_eq!(flip_range(7, 0..0), 7..7);
    assert_eq!(flip_range(7, 7..7), 0..0);
    assert_eq!(flip_range(7, 2..3), 4..5);
    assert_eq!(flip_range(0, 0..0), 0..0);
}
