use chaudloader::scanner::find_pattern;
use chaudloader::scanner::read_u32_le;
use chaudloader::scanner::resolve_rip;
use chaudloader::scanner::wrapping_offset;

#[test]
fn pattern_found_at_start() {
    let text = vec![1u8, 2, 3, 4, 5];
    let pat = vec![1u8, 2];
    assert_eq!(find_pattern(&text, &pat), Some(0));
}

#[test]
fn pattern_found_in_middle() {
    let text = vec![9u8, 9, 1, 2, 3, 9];
    let pat = vec![1u8, 2, 3];
    assert_eq!(find_pattern(&text, &pat), Some(2));
}

#[test]
fn first_of_two_occurrences_wins() {
    let text = vec![7u8, 1, 2, 0, 1, 2];
    let pat = vec![1u8, 2];
    assert_eq!(find_pattern(&text, &pat), Some(1));
}

#[test]
fn pattern_absent() {
    let text = vec![1u8, 2, 3];
    let pat = vec![4u8];
    assert_eq!(find_pattern(&text, &pat), None);
}

#[test]
fn pattern_longer_than_text() {
    let text = vec![1u8];
    let pat = vec![1u8, 2];
    assert_eq!(find_pattern(&text, &pat), None);
}

#[test]
fn little_endian_read() {
    let b = vec![0u8, 0x11, 0x22, 0x33, 0x44, 0];
    assert_eq!(read_u32_le(&b, 1), 0x4433_2211);
    assert_eq!(read_u32_le(&b, 0), 0x3322_1100);
}

#[test]
fn rip_resolution_positive_displacement() {
    assert_eq!(
        resolve_rip(0x1_4000_0000, 0x800, 0x4433_2211),
        0x1_4000_0000 + 0x800 + 0x1f + 0x4433_2211
    );
}

#[test]
fn rip_resolution_negative_displacement() {
    // 0xffff_fffc encodes -4.
    assert_eq!(resolve_rip(0x1_4000_0000, 0x100, 0xffff_fffc), 0x1_4000_0000 + 0x100 + 0x1f - 4);
}

#[test]
fn rip_resolution_wraps_at_address_space_end() {
    assert_eq!(resolve_rip(u64::MAX, 0, 1), 0x1f + 1 - 1);
}

#[test]
fn offsets_wrap() {
    assert_eq!(wrapping_offset(10, 5), 15);
    assert_eq!(wrapping_offset(u64::MAX, 1), 0);
}
