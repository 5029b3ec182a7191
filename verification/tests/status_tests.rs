use nes_rs::cpu::status::ProcessorStatus;

#[test]
fn test_from_eq() {
    let status = ProcessorStatus {
        carry_flag: true,
        zero_flag: true,
        interrupt_disable: true,
        decimal: true,
        overflow_flag: true,
        negative_flag: true,
    };
    let bin: u8 = status.to_byte();
    let back: ProcessorStatus = ProcessorStatus::from_byte(bin);

    assert_eq!(status, back)
}

#[test]
fn test_status_byte_layout() {
    let status = ProcessorStatus {
        carry_flag: true,
        zero_flag: false,
        interrupt_disable: true,
        decimal: false,
        overflow_flag: false,
        negative_flag: true,
    };
    // C at bit 0, I at bit 2, the fixed bit 5, N at bit 7.
    assert_eq!(status.to_byte(), 0b1010_0101);
}

#[test]
fn test_update_zero_neg_flags() {
    // Z exactly on zero, N exactly on values of 0x80 and above, and the
    // outcome depends on the value alone.
    let mut first = ProcessorStatus::default();
    first.update_zero_neg_flags(0);
    assert!(first.zero_flag);
    assert!(!first.negative_flag);

    let mut second = ProcessorStatus {
        carry_flag: true,
        ..ProcessorStatus::default()
    };
    second.update_zero_neg_flags(0);
    assert_eq!(second.zero_flag, first.zero_flag);
    assert_eq!(second.negative_flag, first.negative_flag);
    assert!(second.carry_flag);

    let mut third = ProcessorStatus::default();
    third.update_zero_neg_flags(0x80);
    assert!(!third.zero_flag);
    assert!(third.negative_flag);

    let mut fourth = ProcessorStatus::default();
    fourth.update_zero_neg_flags(0x7f);
    assert!(!fourth.zero_flag);
    assert!(!fourth.negative_flag);
}
