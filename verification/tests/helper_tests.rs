use gb_core::helper::{combine_u8_to_u16, split_u16};

#[test]
fn combine_puts_the_first_byte_high() {
    assert_eq!(combine_u8_to_u16(0x12, 0x34), 0x1234);
    assert_eq!(combine_u8_to_u16(0x00, 0xFF), 0x00FF);
    assert_eq!(combine_u8_to_u16(0xFF, 0x00), 0xFF00);
    assert_eq!(combine_u8_to_u16(0xFF, 0xFF), 0xFFFF);
    assert_eq!(combine_u8_to_u16(0, 0), 0);
}

#[test]
fn split_gives_high_then_low() {
    assert_eq!(split_u16(0x1234), (0x12, 0x34));
    assert_eq!(split_u16(0x00FF), (0x00, 0xFF));
    assert_eq!(split_u16(0xFF00), (0xFF, 0x00));
    assert_eq!(split_u16(0), (0, 0));
}

#[test]
fn split_and_combine_round_trip() {
    for v in [0u16, 1, 0x7F, 0x80, 0xFF, 0x100, 0x1234, 0x7FFF, 0x8000, 0xFFFE, 0xFFFF] {
        let (first, second) = split_u16(v);
        assert_eq!(combine_u8_to_u16(first, second), v);
    }
}
