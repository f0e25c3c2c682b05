use intel8080::alu::{add_pairs, add_with_carry, advance, check_half_carry_add,
    check_half_carry_sub, decimal_adjust, parity, retreat, rotate_left, rotate_left_through,
    rotate_right, rotate_right_through, sub_with_borrow, Outcome};
use intel8080::alu::{concat_u8, split_u16};

#[test]
fn parity_counts_one_bits() {
    assert_eq!(parity(0x00), true);
    assert_eq!(parity(0x01), false);
    assert_eq!(parity(0x03), true);
    assert_eq!(parity(0x80), false);
    assert_eq!(parity(0xFF), true);
    assert_eq!(parity(0x7F), false);
    for x in 0..=255u8 {
        assert_eq!(parity(x), x.count_ones() % 2 == 0);
    }
}

#[test]
fn add_gives_byte_carry_and_half_carry() {
    assert_eq!(add_with_carry(0x01, 0xFF, false), Outcome { value: 0x00, carry: true, aux: true });
    assert_eq!(add_with_carry(0x0F, 0x01, false), Outcome { value: 0x10, carry: false, aux: true });
    assert_eq!(add_with_carry(0xF0, 0x10, false), Outcome { value: 0x00, carry: true, aux: false });
    assert_eq!(add_with_carry(0x12, 0x34, false), Outcome { value: 0x46, carry: false, aux: false });
}

#[test]
fn add_takes_the_carry_into_the_sum() {
    assert_eq!(add_with_carry(0xFF, 0x00, true), Outcome { value: 0x00, carry: true, aux: true });
    assert_eq!(add_with_carry(0x00, 0xFF, true), Outcome { value: 0x00, carry: true, aux: true });
    assert_eq!(add_with_carry(0x0F, 0x00, true), Outcome { value: 0x10, carry: false, aux: true });
    assert_eq!(add_with_carry(0xFF, 0xFF, true), Outcome { value: 0xFF, carry: true, aux: true });
}

#[test]
fn add_matches_wide_arithmetic_everywhere() {
    for x in 0..=255u16 {
        for y in 0..=255u16 {
            for c in 0..=1u16 {
                let out = add_with_carry(x as u8, y as u8, c == 1);
                assert_eq!(out.value as u16, (x + y + c) % 256);
                assert_eq!(out.carry, x + y + c >= 256);
                assert_eq!(out.aux, (x & 0xF) + (y & 0xF) + c >= 0x10);
            }
        }
    }
}

#[test]
fn sub_gives_byte_borrow_and_half_carry() {
    assert_eq!(sub_with_borrow(0x05, 0x03, false), Outcome { value: 0x02, carry: false, aux: true });
    assert_eq!(sub_with_borrow(0x03, 0x05, false), Outcome { value: 0xFE, carry: true, aux: false });
    assert_eq!(sub_with_borrow(0x10, 0x00, false), Outcome { value: 0x10, carry: false, aux: false });
    assert_eq!(sub_with_borrow(0x00, 0x01, false), Outcome { value: 0xFF, carry: true, aux: false });
}

#[test]
fn sub_takes_the_borrow_with_the_byte() {
    assert_eq!(sub_with_borrow(0x05, 0x03, true), Outcome { value: 0x01, carry: false, aux: true });
    assert_eq!(sub_with_borrow(0x00, 0x00, true), Outcome { value: 0xFF, carry: true, aux: false });
    assert_eq!(sub_with_borrow(0x07, 0xFF, true), Outcome { value: 0x07, carry: true, aux: false });
}

#[test]
fn sub_is_add_of_the_twos_complement() {
    for x in 0..=255u8 {
        for y in 0..=255u8 {
            let taken = sub_with_borrow(x, y, false);
            let added = add_with_carry(x, y.wrapping_neg(), false);
            assert_eq!(taken.value, added.value);
            assert_eq!(taken.aux, added.aux);
            assert_eq!(taken.carry, x < y);
            assert_eq!(taken.value, x.wrapping_sub(y));
        }
    }
}

#[test]
fn half_carry_checks() {
    assert_eq!(check_half_carry_add(0x0F, 0x01), true);
    assert_eq!(check_half_carry_add(0x0E, 0x01), false);
    assert_eq!(check_half_carry_add(0xFF, 0xFF), true);
    assert_eq!(check_half_carry_sub(0x05, 0x03), true);
    assert_eq!(check_half_carry_sub(0x03, 0x05), false);
    assert_eq!(check_half_carry_sub(0x10, 0x00), false);
}

#[test]
fn rotations() {
    assert_eq!(rotate_left(0b1000_0001), (0b0000_0011, true));
    assert_eq!(rotate_left(0b0100_0000), (0b1000_0000, false));
    assert_eq!(rotate_right(0b1000_0001), (0b1100_0000, true));
    assert_eq!(rotate_right(0b0000_0010), (0b0000_0001, false));
    assert_eq!(rotate_left_through(0b1000_0000, false), (0b0000_0000, true));
    assert_eq!(rotate_left_through(0b0100_0000, true), (0b1000_0001, false));
    assert_eq!(rotate_right_through(0b0000_0001, false), (0b0000_0000, true));
    assert_eq!(rotate_right_through(0b0000_0010, true), (0b1000_0001, false));
    for x in 0..=255u8 {
        assert_eq!(rotate_left(x).0, x.rotate_left(1));
        assert_eq!(rotate_right(x).0, x.rotate_right(1));
    }
}

#[test]
fn decimal_adjust_both_digits() {
    assert_eq!(decimal_adjust(0x9B, false, false), Outcome { value: 0x01, carry: true, aux: true });
}

#[test]
fn decimal_adjust_leaves_decimal_digits_alone() {
    assert_eq!(decimal_adjust(0x42, false, false), Outcome { value: 0x42, carry: false, aux: false });
    assert_eq!(decimal_adjust(0x99, false, false), Outcome { value: 0x99, carry: false, aux: false });
}

#[test]
fn decimal_adjust_low_digit_only() {
    assert_eq!(decimal_adjust(0x0A, false, false), Outcome { value: 0x10, carry: false, aux: true });
    assert_eq!(decimal_adjust(0x11, false, true), Outcome { value: 0x17, carry: false, aux: false });
}

#[test]
fn decimal_adjust_high_digit_only() {
    assert_eq!(decimal_adjust(0xA0, false, false), Outcome { value: 0x00, carry: true, aux: false });
    assert_eq!(decimal_adjust(0x10, true, false), Outcome { value: 0x70, carry: false, aux: false });
}

#[test]
fn decimal_adjust_wraps_in_eight_bits() {
    assert_eq!(decimal_adjust(0xFA, false, false), Outcome { value: 0x00, carry: false, aux: true });
    assert_eq!(decimal_adjust(0xFF, false, false), Outcome { value: 0x05, carry: false, aux: true });
}

#[test]
fn pairs_join_and_split() {
    assert_eq!(concat_u8(0x12, 0x34), 0x1234);
    assert_eq!(split_u16(0x1234), (0x12, 0x34));
    assert_eq!(concat_u8(0xFF, 0x00), 0xFF00);
    assert_eq!(split_u16(0x00FF), (0x00, 0xFF));
    for v in [0u16, 1, 0x00FF, 0x0100, 0x7FFF, 0x8000, 0xFFFF] {
        let (high, low) = split_u16(v);
        assert_eq!(concat_u8(high, low), v);
    }
}

#[test]
fn addresses_wrap_round() {
    assert_eq!(advance(0xFFFF, 1), 0x0000);
    assert_eq!(advance(0xFFFF, 2), 0x0001);
    assert_eq!(advance(0x1234, 2), 0x1236);
    assert_eq!(retreat(0x0000, 1), 0xFFFF);
    assert_eq!(retreat(0x0001, 2), 0xFFFF);
    assert_eq!(retreat(0x2400, 2), 0x23FE);
}

#[test]
fn pair_sums() {
    assert_eq!(add_pairs(0x1234, 0x1111), (0x2345, false));
    assert_eq!(add_pairs(0xFFFF, 0x0001), (0x0000, true));
    assert_eq!(add_pairs(0x8000, 0x8000), (0x0000, true));
    assert_eq!(add_pairs(0xFFFF, 0xFFFF), (0xFFFE, true));
}
