use sandbox_ipc::bytes::copy;
use sandbox_ipc::layout::{align, CACHE_LINE, USIZE_SIZE};

#[test]
fn align_rounds_up() {
    assert_eq!(align(1, 64), 64);
    assert_eq!(align(64, 64), 64);
    assert_eq!(align(65, 64), 128);
    assert_eq!(align(13, 8), 16);
    assert_eq!(align(1000, 1), 1000);
}

#[test]
fn align_of_zero_is_zero() {
    assert_eq!(align(0, 64), 0);
    assert_eq!(align(17, 0), 0);
    assert_eq!(align(0, 0), 0);
}

#[test]
fn align_to_other_than_a_power_of_two_keeps_bits() {
    // 5 + 2 = 0b111, without the bits of 2 = 0b010.
    assert_eq!(align(5, 3), 0b101);
}

#[test]
fn word_and_cache_line_sizes() {
    assert_eq!(CACHE_LINE, 64);
    assert_eq!(USIZE_SIZE, core::mem::size_of::<usize>());
}

#[test]
fn copy_overwrites_only_its_range() {
    let mut dest = [1u8, 2, 3, 4, 5];
    copy(&mut dest, 1, &[10, 11, 12, 13], 2, 2);
    assert_eq!(dest, [1, 12, 13, 4, 5]);
    copy(&mut dest, 5, &[], 0, 0);
    assert_eq!(dest, [1, 12, 13, 4, 5]);
}

#[test]
fn copying_in_pieces_is_copying_in_one_go() {
    let source = [7u8, 8, 9, 10];
    let mut pieces = [0u8; 6];
    copy(&mut pieces, 1, &source, 0, 3);
    copy(&mut pieces, 4, &source, 3, 1);
    let mut whole = [0u8; 6];
    copy(&mut whole, 1, &source, 0, 4);
    assert_eq!(pieces, whole);
    assert_eq!(&whole[1..5], &source);
}
