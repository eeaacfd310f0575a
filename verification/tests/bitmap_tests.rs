use touch_sim::bitmap::{has_specific_abs, has_specific_bit, has_specific_key, has_specific_prop};

#[test]
fn bit_set_reads_the_right_bit() {
    let bits = [0b0000_0010u8, 0b1000_0000u8];
    assert!(has_specific_bit(&bits, 1));
    assert!(!has_specific_bit(&bits, 0));
    assert!(has_specific_bit(&bits, 15));
    assert!(!has_specific_bit(&bits, 14));
}

#[test]
fn bit_set_out_of_range_is_false_not_an_error() {
    let bits = [0xFFu8, 0xFFu8];
    assert!(!has_specific_bit(&bits, 16));
    assert!(!has_specific_bit(&bits, 100));
    assert!(!has_specific_bit(&bits, u16::MAX));
    let empty: [u8; 0] = [];
    assert!(!has_specific_bit(&empty, 0));
}

#[test]
fn family_helpers_agree_with_the_core_test() {
    let bits = [0b0101_0101u8];
    for code in 0u16..16 {
        let expect = code < 8 && code % 2 == 0;
        assert_eq!(has_specific_abs(&bits, code), expect);
        assert_eq!(has_specific_prop(&bits, code), expect);
        assert_eq!(has_specific_key(&bits, code), expect);
    }
}
