use emulator_8080::alu;

#[test]
fn should_decimal_adjust_correctly() {
    let (r, c, ac) = alu::decimal_adjust(0x9b, false, false);

    assert_eq!(r, 0x01);
    assert!(c);
    assert!(ac);
}

#[test]
fn should_add_correctly() {
    let (result, carry, aux_carry) = alu::add(0x04, 0xFD);

    assert_eq!(result, 0x01);
    assert!(carry);
    assert!(aux_carry);
}

#[test]
fn should_add_with_carry_correctly() {
    let (result, carry, aux_carry) = alu::add_with_carry(0x3d, 0x42, true);

    assert_eq!(result, 0x80);
    assert!(!carry);
    assert!(aux_carry);
}

#[test]
fn should_subtract_correctly() {
    let (result, carry, aux_carry) = alu::sub(0x0c, 0x0f);

    assert_eq!(result, 0xfd);
    assert!(carry);
    assert!(!aux_carry);
}

#[test]
fn should_subtract_with_borrow_correctly() {
    let (result, carry, aux_carry) = alu::sub_with_borrow(0x04, 0x02, true);

    assert_eq!(result, 0x01);
    assert!(!carry);
    assert!(aux_carry);
}

#[test]
fn subtract_equal_values_gives_zero_without_borrow() {
    assert_eq!(alu::sub(0x42, 0x42), (0x00, false, true));
}

#[test]
fn subtract_with_borrow_from_zero_wraps() {
    assert_eq!(alu::sub_with_borrow(0x00, 0x00, true), (0xFF, true, false));
}

#[test]
fn add_with_carry_wraps_at_the_top() {
    assert_eq!(alu::add_with_carry(0xFF, 0x00, true), (0x00, true, true));
}

#[test]
fn decimal_adjust_keeps_every_valid_bcd_value() {
    for high in 0u8..10 {
        for low in 0u8..10 {
            let a = high * 16 + low;
            assert_eq!(alu::decimal_adjust(a, false, false).0, a);
        }
    }
}

#[test]
fn decimal_adjust_corrects_a_bcd_sum() {
    // 0x38 + 0x45 = 0x7D, which adjusts to the BCD 83.
    let (sum, carry, aux_carry) = alu::add(0x38, 0x45);
    assert_eq!(alu::decimal_adjust(sum, carry, aux_carry), (0x83, false, true));
    // 0x99 + 0x01 = 0x9A, which adjusts to 00 with a decimal carry.
    let (sum, carry, aux_carry) = alu::add(0x99, 0x01);
    assert_eq!(alu::decimal_adjust(sum, carry, aux_carry), (0x00, true, true));
}

#[test]
fn decimal_adjust_uses_the_half_carry() {
    // 0x09 + 0x09 = 0x12 with AC set: adjusts to 18.
    assert_eq!(alu::decimal_adjust(0x12, false, true), (0x18, false, false));
}

#[test]
fn parity_counts_one_bits() {
    assert!(alu::even_parity(0x00));
    assert!(!alu::even_parity(0x01));
    assert!(alu::even_parity(0x03));
    assert!(!alu::even_parity(0x08));
    assert!(alu::even_parity(0xFF));
    assert!(!alu::even_parity(0x7F));
}
