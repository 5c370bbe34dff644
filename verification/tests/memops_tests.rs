use polished_boot::memops::{memcmp, memcpy, memmove, memset};

#[test]
fn test_memset_prefix_only() {
    let mut buf = vec![7u8; 8];
    memset(&mut buf, 0xaa, 5);
    assert_eq!(buf, vec![0xaa, 0xaa, 0xaa, 0xaa, 0xaa, 7, 7, 7]);
}

#[test]
fn test_memcpy_prefix() {
    let src = vec![1u8, 2, 3, 4];
    let mut dst = vec![9u8; 6];
    memcpy(&mut dst, &src, 3);
    assert_eq!(dst, vec![1, 2, 3, 9, 9, 9]);
}

#[test]
fn test_memcmp_equal_and_difference() {
    let a = vec![1u8, 2, 3];
    let b = vec![1u8, 2, 3];
    assert_eq!(memcmp(&a, &b, 3), 0);
    let c = vec![1u8, 5, 3];
    // The first disagreeing pair decides: 2 - 5.
    assert_eq!(memcmp(&a, &c, 3), -3);
    assert_eq!(memcmp(&c, &a, 3), 3);
    // Disagreement past the compared length does not count.
    let d = vec![1u8, 2, 9];
    assert_eq!(memcmp(&a, &d, 2), 0);
}

#[test]
fn test_memmove_overlapping_forward() {
    // Destination below the source.
    let mut buf = vec![0u8, 1, 2, 3, 4, 5];
    memmove(&mut buf, 0, 2, 4);
    assert_eq!(buf, vec![2, 3, 4, 5, 4, 5]);
}

#[test]
fn test_memmove_overlapping_backward() {
    // Destination above the source, inside the source range.
    let mut buf = vec![0u8, 1, 2, 3, 4, 5];
    memmove(&mut buf, 2, 0, 4);
    assert_eq!(buf, vec![0, 1, 0, 1, 2, 3]);
}

#[test]
fn test_memmove_disjoint() {
    let mut buf = vec![1u8, 2, 3, 0, 0, 0];
    memmove(&mut buf, 3, 0, 3);
    assert_eq!(buf, vec![1, 2, 3, 1, 2, 3]);
}
