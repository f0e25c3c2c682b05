//! Byte arithmetic of the processor: sums and differences with the carries
//! they produce, parity, rotations, decimal adjustment and register pairs.
//!
//! Every function here is pure. Each specification is stated in ordinary
//! arithmetic on the numbers that the bytes stand for.

use vstd::prelude::*;

verus! {

/// A carry or borrow as a number.
pub open spec fn unit(c: bool) -> int {
    if c {
        1
    } else {
        0
    }
}

/// The number of one bits in a byte.
pub open spec fn ones(x: u8) -> int {
    (x as int) % 2 + (x as int / 2) % 2 + (x as int / 4) % 2 + (x as int / 8) % 2 + (x as int
        / 16) % 2 + (x as int / 32) % 2 + (x as int / 64) % 2 + (x as int / 128) % 2
}

/// Whether a byte has an even number of one bits.
pub open spec fn even_parity(x: u8) -> bool {
    ones(x) % 2 == 0
}

/// The byte of a sum: `x + y + c` reduced to eight bits.
pub open spec fn sum_byte(x: u8, y: u8, c: bool) -> u8 {
    ((x as int + y as int + unit(c)) % 256) as u8
}

/// The carry out of bit 7 of `x + y + c`.
pub open spec fn sum_carry(x: u8, y: u8, c: bool) -> bool {
    x as int + y as int + unit(c) >= 256
}

/// The carry out of bit 3 of `x + y + c`.
pub open spec fn sum_half_carry(x: u8, y: u8, c: bool) -> bool {
    (x as int) % 16 + (y as int) % 16 + unit(c) >= 16
}

/// The two's complement of a byte.
pub open spec fn negated(y: u8) -> u8 {
    ((256 - y as int) % 256) as u8
}

/// The byte of a difference: `x - y - b` reduced to eight bits.
pub open spec fn diff_byte(x: u8, y: u8, b: bool) -> u8 {
    ((x as int - y as int - unit(b)) % 256) as u8
}

/// The borrow of `x - y - b`.
pub open spec fn diff_borrow(x: u8, y: u8, b: bool) -> bool {
    (x as int) < y as int + unit(b)
}

/// The carry out of bit 3 when the two's complement of `y + b` is added to
/// `x`, which is how the processor subtracts.
pub open spec fn diff_half_carry(x: u8, y: u8, b: bool) -> bool {
    (x as int) % 16 + (256 - y as int - unit(b)) % 16 >= 16
}

/// A byte rotated left by one bit; bit 7 comes back in as bit 0.
pub open spec fn rotated_left(x: u8) -> u8 {
    ((x as int * 2) % 256 + x as int / 128) as u8
}

/// A byte rotated right by one bit; bit 0 comes back in as bit 7.
pub open spec fn rotated_right(x: u8) -> u8 {
    (x as int / 2 + ((x as int) % 2) * 128) as u8
}

/// A byte shifted left by one bit, with `c` coming in as bit 0.
pub open spec fn shifted_left_through(x: u8, c: bool) -> u8 {
    ((x as int * 2) % 256 + unit(c)) as u8
}

/// A byte shifted right by one bit, with `c` coming in as bit 7.
pub open spec fn shifted_right_through(x: u8, c: bool) -> u8 {
    (x as int / 2 + unit(c) * 128) as u8
}

/// The 16-bit number with the given high and low bytes.
pub open spec fn pair(high: u8, low: u8) -> u16 {
    (high as int * 256 + low as int) as u16
}

/// The high byte of a 16-bit number.
pub open spec fn high_byte(val: u16) -> u8 {
    (val as int / 256) as u8
}

/// The low byte of a 16-bit number.
pub open spec fn low_byte(val: u16) -> u8 {
    ((val as int) % 256) as u8
}

/// A 16-bit number moved by `n`, wrapping round at both ends.
pub open spec fn moved(val: u16, n: int) -> u16 {
    ((val as int + n) % 65536) as u16
}

/// What a sum or a difference leaves behind: the byte and the two carries.
#[derive(Clone, Copy, Debug, PartialEq, Eq, Structural)]
pub struct Outcome {
    pub value: u8,
    pub carry: bool,
    pub aux: bool,
}

/// The outcome of adding `y` and the carry `c` to `x`.
pub open spec fn sum(x: u8, y: u8, c: bool) -> Outcome {
    Outcome { value: sum_byte(x, y, c), carry: sum_carry(x, y, c), aux: sum_half_carry(x, y, c) }
}

/// The outcome of taking `y` and the borrow `b` from `x`. The carry of the
/// outcome is the borrow.
pub open spec fn diff(x: u8, y: u8, b: bool) -> Outcome {
    Outcome {
        value: diff_byte(x, y, b),
        carry: diff_borrow(x, y, b),
        aux: diff_half_carry(x, y, b),
    }
}

/// The outcome of decimal adjustment of `x` under the carries `carry` and
/// `aux`. First, if the low digit is above nine or `aux` is set, six is added
/// to the byte, and `aux` becomes the carry out of the low digit. Then, if the
/// high digit is above nine or `carry` is set, six is added to the high digit,
/// and `carry` becomes the carry out of it.
pub open spec fn adjusted(x: u8, carry: bool, aux: bool) -> Outcome {
    let low_fix = (x as int) % 16 > 9 || aux;
    let x1 = if low_fix {
        (x as int + 6) % 256
    } else {
        x as int
    };
    let aux1 = if low_fix {
        (x as int) % 16 + 6 >= 16
    } else {
        aux
    };
    let high_fix = x1 / 16 > 9 || carry;
    let x2 = if high_fix {
        ((x1 / 16 + 6) % 16) * 16 + x1 % 16
    } else {
        x1
    };
    let carry1 = if high_fix {
        x1 / 16 + 6 >= 16
    } else {
        carry
    };
    Outcome { value: x2 as u8, carry: carry1, aux: aux1 }
}

/// Whether `x` has an even number of one bits.
pub fn parity(x: u8) -> (r: bool)
    ensures
        r == even_parity(x),
{
    let y = x ^ (x >> 4);
    let y = y ^ (y >> 2);
    let y = y ^ (y >> 1);
    proof {
        lemma_parity_fold(x);
    }
    y & 1 == 0
}

/// Whether adding the low four bits of `v1` and `v2` carries into bit 4.
pub fn check_half_carry_add(v1: u8, v2: u8) -> (r: bool)
    ensures
        r == sum_half_carry(v1, v2, false),
{
    proof {
        lemma_low_digit(v1);
        lemma_low_digit(v2);
    }
    (v1 & 0x0F) + (v2 & 0x0F) >= 0x10
}

/// Whether taking `v2` from `v1`, by adding its two's complement, carries
/// out of bit 3.
pub fn check_half_carry_sub(v1: u8, v2: u8) -> (r: bool)
    ensures
        r == diff_half_carry(v1, v2, false),
{
    let n: u8 = 0u8.wrapping_sub(v2);
    proof {
        lemma_low_digit(v1);
        lemma_low_digit(n);
    }
    (v1 & 0x0F) + (n & 0x0F) >= 0x10
}

/// Adds `y` and the carry `c` to `x`.
pub fn add_with_carry(x: u8, y: u8, c: bool) -> (r: Outcome)
    ensures
        r == sum(x, y, c),
{
    let cin: u16 = if c { 1 } else { 0 };
    let wide: u16 = (x as u16) + (y as u16) + cin;
    proof {
        lemma_low_digit(x);
        lemma_low_digit(y);
        lemma_truncate(wide);
    }
    Outcome {
        value: wide as u8,
        carry: wide > 0xFF,
        aux: ((x & 0x0F) as u16) + ((y & 0x0F) as u16) + cin >= 0x10,
    }
}

/// Takes `y` and the borrow `b` from `x`, by adding the two's complement of
/// `y + b`.
pub fn sub_with_borrow(x: u8, y: u8, b: bool) -> (r: Outcome)
    ensures
        r == diff(x, y, b),
{
    let bin: u16 = if b { 1 } else { 0 };
    let taken: u16 = (y as u16) + bin;
    let complement: u16 = 0x100 - taken;
    let wide: u16 = (x as u16) + complement;
    proof {
        lemma_low_digit(x);
        lemma_truncate(wide);
        lemma_low_digit_wide(complement);
    }
    Outcome {
        value: wide as u8,
        carry: (x as u16) < taken,
        aux: ((x & 0x0F) as u16) + (complement & 0x0F) >= 0x10,
    }
}

/// Rotates `x` left by one bit. The carry of the result is the bit that left
/// at the top.
pub fn rotate_left(x: u8) -> (r: (u8, bool))
    ensures
        r.0 == rotated_left(x),
        r.1 == (x >= 0x80),
{
    proof {
        lemma_rotate_left(x);
        lemma_end_bits(x);
    }
    ((x << 1) | (x >> 7), x & 0x80 == 0x80)
}

/// Rotates `x` right by one bit. The carry of the result is the bit that left
/// at the bottom.
pub fn rotate_right(x: u8) -> (r: (u8, bool))
    ensures
        r.0 == rotated_right(x),
        r.1 == (x % 2 == 1),
{
    proof {
        lemma_rotate_right(x);
        lemma_end_bits(x);
    }
    ((x >> 1) | (x << 7), x & 0x01 == 0x01)
}

/// Shifts `x` left by one bit with `c` coming in at the bottom. The carry of
/// the result is the bit that left at the top.
pub fn rotate_left_through(x: u8, c: bool) -> (r: (u8, bool))
    ensures
        r.0 == shifted_left_through(x, c),
        r.1 == (x >= 0x80),
{
    let cin: u8 = if c { 1 } else { 0 };
    proof {
        lemma_end_bits(x);
        lemma_shift_in_low(x, cin);
    }
    ((x << 1) | cin, x & 0x80 == 0x80)
}

/// Shifts `x` right by one bit with `c` coming in at the top. The carry of
/// the result is the bit that left at the bottom.
pub fn rotate_right_through(x: u8, c: bool) -> (r: (u8, bool))
    ensures
        r.0 == shifted_right_through(x, c),
        r.1 == (x % 2 == 1),
{
    let cin: u8 = if c { 1 } else { 0 };
    proof {
        lemma_end_bits(x);
        lemma_shift_in_high(x, cin);
    }
    ((x >> 1) | (cin << 7), x & 0x01 == 0x01)
}

/// Adjusts `x` to two decimal digits.
pub fn decimal_adjust(x: u8, carry: bool, aux: bool) -> (r: Outcome)
    ensures
        r == adjusted(x, carry, aux),
{
    let mut value: u8 = x;
    let mut carry_out: bool = carry;
    let mut aux_out: bool = aux;
    proof {
        lemma_low_digit(x);
    }
    if x & 0x0F > 9 || aux {
        aux_out = (x & 0x0F) + 6 >= 0x10;
        value = x.wrapping_add(6);
    }
    proof {
        lemma_digits(value);
    }
    let high: u8 = value >> 4;
    if high > 9 || carry {
        let upper: u8 = high + 6;
        carry_out = upper > 0x0F;
        proof {
            lemma_join_digits(upper, value);
        }
        value = (upper << 4) | (value & 0x0F);
    }
    Outcome { value, carry: carry_out, aux: aux_out }
}

/// Moves a 16-bit number up by `n`, wrapping round.
pub fn advance(val: u16, n: u16) -> (r: u16)
    ensures
        r == moved(val, n as int),
{
    val.wrapping_add(n)
}

/// Moves a 16-bit number down by `n`, wrapping round.
pub fn retreat(val: u16, n: u16) -> (r: u16)
    ensures
        r == moved(val, -(n as int)),
{
    val.wrapping_sub(n)
}

/// Adds two 16-bit numbers. The result is the sum in sixteen bits and the
/// carry out of bit 15.
pub fn add_pairs(x: u16, y: u16) -> (r: (u16, bool))
    ensures
        r.0 == ((x as int + y as int) % 65536) as u16,
        r.1 == (x as int + y as int >= 65536),
{
    let wide: u32 = (x as u32) + (y as u32);
    (x.wrapping_add(y), wide > 0xFFFF)
}

/// Counting a byte down by one is adding `0xFF` to it: the byte and the
/// carry out of bit 3 are the same.
pub proof fn lemma_count_down(x: u8)
    ensures
        sum(x, 0xFF, false).value == diff(x, 1, false).value,
        sum(x, 0xFF, false).aux == diff(x, 1, false).aux,
{
    if x == 0 {
    } else {
    }
}

/// Taking a byte away is adding its two's complement: the byte and the
/// carry out of bit 3 are the same.
pub proof fn lemma_diff_is_sum(x: u8, y: u8)
    ensures
        diff(x, y, false).value == sum(x, negated(y), false).value,
        diff(x, y, false).aux == sum(x, negated(y), false).aux,
        diff(x, y, false).carry == (x < y),
{
    if y == 0 {
        assert(negated(y) == 0);
    } else {
        assert(negated(y) as int == 256 - y as int);
        let d = x as int - y as int;
        assert((d + 256) % 256 == d % 256) by {
            if d >= 0 {
            } else {
            }
        }
    }
}

/// A 16-bit number is the pair of its two bytes, and the bytes of a pair are
/// the bytes it was made of.
pub proof fn lemma_pair_bytes(v: u16, high: u8, low: u8)
    ensures
        pair(high_byte(v), low_byte(v)) == v,
        high_byte(pair(high, low)) == high,
        low_byte(pair(high, low)) == low,
{
}

/// Moving a 16-bit number by nothing leaves it, and moving it twice is
/// moving it by the sum.
pub proof fn lemma_moved_twice(val: u16, n: int, m: int)
    ensures
        moved(val, 0) == val,
        moved(moved(val, n), m) == moved(val, n + m),
{
    let a = val as int + n;
    assert((a % 65536 + m) % 65536 == (a + m) % 65536) by {
        vstd::arithmetic::div_mod::lemma_add_mod_noop(a, m, 65536);
        vstd::arithmetic::div_mod::lemma_mod_twice(a, 65536);
        vstd::arithmetic::div_mod::lemma_add_mod_noop(a % 65536, m, 65536);
    }
}

/// Moving a 16-bit number by two amounts less than 65,536 apart gives two
/// numbers.
pub proof fn lemma_moved_apart(val: u16, n: int, m: int)
    requires
        n != m,
        -65536 < n - m < 65536,
    ensures
        moved(val, n) != moved(val, m),
{
    let a = val as int + n;
    let b = val as int + m;
    if a % 65536 == b % 65536 {
        vstd::arithmetic::div_mod::lemma_fundamental_div_mod(a, 65536);
        vstd::arithmetic::div_mod::lemma_fundamental_div_mod(b, 65536);
        assert(a - b == 65536 * (a / 65536 - b / 65536)) by (nonlinear_arith)
            requires
                a == 65536 * (a / 65536) + a % 65536,
                b == 65536 * (b / 65536) + b % 65536,
                a % 65536 == b % 65536,
        ;
        let k = a / 65536 - b / 65536;
        assert(k == 0) by (nonlinear_arith)
            requires
                -65536 < 65536 * k < 65536,
        ;
    }
}

/// Moving a 16-bit number wraps round: up from `0xFFFF` is zero, down from
/// zero is `0xFFFF`, and anywhere else the number changes by what it is
/// moved by.
pub proof fn lemma_moved_wraps(v: u16, n: int)
    ensures
        moved(0xFFFF, 1) == 0,
        moved(0, -1) == 0xFFFF,
        0 <= v as int + n < 65536 ==> moved(v, n) as int == v as int + n,
{
}

/// Joins two bytes into a 16-bit number.
pub fn concat_u8(high: u8, low: u8) -> (r: u16)
    ensures
        r == pair(high, low),
{
    proof {
        lemma_concat(high, low);
    }
    ((high as u16) << 8) | (low as u16)
}

/// Splits a 16-bit number into its high and its low byte.
pub fn split_u16(val: u16) -> (r: (u8, u8))
    ensures
        r.0 == high_byte(val),
        r.1 == low_byte(val),
        pair(r.0, r.1) == val,
{
    proof {
        lemma_split(val);
    }
    let high = (val >> 8) as u8;
    let low = (val & 0xFF) as u8;
    (high, low)
}

/// Folding a byte onto itself by exclusive or leaves its parity in bit 0.
pub proof fn lemma_parity_fold(x: u8)
    by (bit_vector)
    ensures
        (((x ^ (x >> 4)) ^ ((x ^ (x >> 4)) >> 2)) ^ (((x ^ (x >> 4)) ^ ((x ^ (x >> 4)) >> 2)) >> 1))
            & 1 == 0 <==> (x % 2 + (x / 2) % 2 + (x / 4) % 2 + (x / 8) % 2 + (x / 16) % 2 + (x / 32)
            % 2 + (x / 64) % 2 + (x / 128) % 2) % 2 == 0,
{
}

/// The low four bits of a byte are its remainder by sixteen.
pub proof fn lemma_low_digit(x: u8)
    by (bit_vector)
    ensures
        x & 0x0F == x % 16,
        x & 0x0F < 16,
{
}

/// The low four bits of a 16-bit number are its remainder by sixteen.
pub proof fn lemma_low_digit_wide(x: u16)
    by (bit_vector)
    ensures
        x & 0x0F == x % 16,
        x & 0x0F < 16,
{
}

/// Narrowing a 16-bit number to a byte keeps its remainder by 256.
pub proof fn lemma_truncate(x: u16)
    by (bit_vector)
    ensures
        (x as u8) as u16 == x % 256,
{
}

/// Rotating a byte left by one bit, in arithmetic.
pub proof fn lemma_rotate_left(x: u8)
    by (bit_vector)
    ensures
        (x << 1) | (x >> 7) == (x * 2) % 256 + x / 128,
{
}

/// Rotating a byte right by one bit, in arithmetic.
pub proof fn lemma_rotate_right(x: u8)
    by (bit_vector)
    ensures
        (x >> 1) | (x << 7) == x / 2 + (x % 2) * 128,
{
}

/// The top and the bottom bit of a byte, in arithmetic.
pub proof fn lemma_end_bits(x: u8)
    by (bit_vector)
    ensures
        (x & 0x80 == 0x80) == (x >= 0x80),
        (x & 0x01 == 0x01) == (x % 2 == 1),
{
}

/// A byte shifted left by one bit with the bit `c` put in at the bottom.
pub proof fn lemma_shift_in_low(x: u8, c: u8)
    by (bit_vector)
    requires
        c <= 1,
    ensures
        (x << 1) | c == (x * 2) % 256 + c,
{
}

/// A byte shifted right by one bit with the bit `c` put in at the top.
pub proof fn lemma_shift_in_high(x: u8, c: u8)
    by (bit_vector)
    requires
        c <= 1,
    ensures
        (x >> 1) | (c << 7) == x / 2 + c * 128,
{
}

/// The two digits of a byte.
pub proof fn lemma_digits(x: u8)
    by (bit_vector)
    ensures
        x >> 4 == x / 16,
        x >> 4 < 16,
        x & 0x0F == x % 16,
{
}

/// A high digit, of which only four bits stay, joined with the low digit of a
/// byte.
pub proof fn lemma_join_digits(upper: u8, x: u8)
    by (bit_vector)
    requires
        upper < 32,
    ensures
        (upper << 4) | (x & 0x0F) == (upper % 16) * 16 + x % 16,
{
}

/// Shifting the high byte up and or-ing the low byte in gives
/// `high * 256 + low`.
pub proof fn lemma_concat(high: u8, low: u8)
    by (bit_vector)
    ensures
        ((high as u16) << 8) | (low as u16) == high * 256 + low,
{
}

/// The two bytes of a 16-bit number.
pub proof fn lemma_split(val: u16)
    by (bit_vector)
    ensures
        ((val >> 8) as u8) as u16 == val / 256,
        ((val & 0xFF) as u8) as u16 == val % 256,
        (val / 256) * 256 + val % 256 == val,
{
}

} // verus!
