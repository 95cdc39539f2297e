//! The arithmetic of the processor on single bytes.

use vstd::prelude::*;

verus! {

/// The value of a byte read as a signed number.
pub open spec fn signed(value: u8) -> int {
    if value >= 0x80 {
        value - 256
    } else {
        value as int
    }
}

/// One for a set carry flag, zero for a clear one.
pub open spec fn carry_value(carry: bool) -> int {
    if carry {
        1
    } else {
        0
    }
}

/// Whether bit 7 of a byte is set.
pub open spec fn is_negative(value: u8) -> bool {
    value >= 0x80
}

/// The outcome of an addition or subtraction.
#[derive(Clone, Copy, Debug, PartialEq, Eq, Structural)]
pub struct Sum {
    pub value: u8,
    pub carry: bool,
    pub overflow: bool,
}

/// The outcome of a shift or rotation.
#[derive(Clone, Copy, Debug, PartialEq, Eq, Structural)]
pub struct Shifted {
    pub value: u8,
    pub carry: bool,
}

/// The outcome of a comparison.
#[derive(Clone, Copy, Debug, PartialEq, Eq, Structural)]
pub struct Comparison {
    pub carry: bool,
    pub zero: bool,
    pub negative: bool,
}

/// `a + m + carry`: the low eight bits of the sum, the carry out of them,
/// and whether the sum of the signed numbers leaves the range of a signed
/// byte.
pub open spec fn add_spec(a: u8, m: u8, carry: bool) -> Sum {
    let total = a + m + carry_value(carry);
    let signed_total = signed(a) + signed(m) + carry_value(carry);
    Sum {
        value: (total % 256) as u8,
        carry: total > 255,
        overflow: signed_total < -128 || signed_total > 127,
    }
}

/// `a - m - (1 - carry)`: the low eight bits of the difference, a carry
/// that is set when no borrow was needed, and whether the difference of
/// the signed numbers leaves the range of a signed byte.
pub open spec fn subtract_spec(a: u8, m: u8, carry: bool) -> Sum {
    let total = a - m - (1 - carry_value(carry));
    let signed_total = signed(a) - signed(m) - (1 - carry_value(carry));
    Sum {
        value: (total % 256) as u8,
        carry: total >= 0,
        overflow: signed_total < -128 || signed_total > 127,
    }
}

/// `register - m` without a store: carry when the register is at least
/// `m`, zero when they are equal, negative from bit 7 of the difference.
pub open spec fn compare_spec(register: u8, m: u8) -> Comparison {
    Comparison {
        carry: register >= m,
        zero: register == m,
        negative: is_negative(((register - m) % 256) as u8),
    }
}

/// A shift to the left by one bit: `low` comes in at bit 0, bit 7 goes
/// out as the carry.
pub open spec fn shift_left_spec(value: u8, low: bool) -> Shifted {
    Shifted { value: ((value * 2) % 256 + carry_value(low)) as u8, carry: value >= 0x80 }
}

/// A shift to the right by one bit: `high` comes in at bit 7, bit 0 goes
/// out as the carry.
pub open spec fn shift_right_spec(value: u8, high: bool) -> Shifted {
    Shifted { value: (value / 2 + 128 * carry_value(high)) as u8, carry: value % 2 == 1 }
}

/// The next byte, with `$00` after `$FF`.
pub open spec fn incremented(value: u8) -> u8 {
    ((value + 1) % 256) as u8
}

/// The byte before, with `$FF` before `$00`.
pub open spec fn decremented(value: u8) -> u8 {
    ((value + 255) % 256) as u8
}

/// Adds two bytes and a carry.
pub fn add_with_carry(a: u8, m: u8, carry: bool) -> (sum: Sum)
    ensures
        sum == add_spec(a, m, carry),
{
    let total: u16 = a as u16 + m as u16 + if carry {
        1
    } else {
        0
    };
    let value = (total % 256) as u8;
    Sum {
        value,
        carry: total > 255,
        overflow: (a >= 0x80) == (m >= 0x80) && (value >= 0x80) != (a >= 0x80),
    }
}

/// Subtracts a byte and a borrow from a byte.
pub fn subtract_with_borrow(a: u8, m: u8, carry: bool) -> (sum: Sum)
    ensures
        sum == subtract_spec(a, m, carry),
{
    let total: u16 = 256 + a as u16 - m as u16 - if carry {
        0
    } else {
        1
    };
    let value = (total % 256) as u8;
    Sum {
        value,
        carry: total >= 256,
        overflow: (a >= 0x80) != (m >= 0x80) && (value >= 0x80) != (a >= 0x80),
    }
}

/// Compares a register with a byte.
pub fn compare(register: u8, m: u8) -> (comparison: Comparison)
    ensures
        comparison == compare_spec(register, m),
{
    let difference: u16 = (256 + register as u16 - m as u16) % 256;
    Comparison { carry: register >= m, zero: register == m, negative: difference >= 0x80 }
}

/// Shifts a byte to the left and puts `low` into bit 0.
pub fn shift_left(value: u8, low: bool) -> (shifted: Shifted)
    ensures
        shifted == shift_left_spec(value, low),
{
    let doubled: u16 = (value as u16 * 2) % 256;
    Shifted {
        value: (doubled + if low {
            1
        } else {
            0
        }) as u8,
        carry: value >= 0x80,
    }
}

/// Shifts a byte to the right and puts `high` into bit 7.
pub fn shift_right(value: u8, high: bool) -> (shifted: Shifted)
    ensures
        shifted == shift_right_spec(value, high),
{
    Shifted {
        value: value / 2 + if high {
            128
        } else {
            0
        },
        carry: value % 2 == 1,
    }
}

/// The next byte, wrapping around.
pub fn increment(value: u8) -> (next: u8)
    ensures
        next == incremented(value),
{
    if value == 255 {
        0
    } else {
        value + 1
    }
}

/// The byte before, wrapping around.
pub fn decrement(value: u8) -> (before: u8)
    ensures
        before == decremented(value),
{
    if value == 0 {
        255
    } else {
        value - 1
    }
}

/// An addition yields `(a + m + carry) mod 256`, and it sets the overflow
/// flag exactly when the sign bit of the result differs from the sign bits
/// of both inputs.
pub proof fn lemma_add_identity(a: u8, m: u8, carry: bool)
    ensures
        add_spec(a, m, carry).value == (a + m + carry_value(carry)) % 256,
        add_spec(a, m, carry).carry == (a + m + carry_value(carry) >= 256),
        add_spec(a, m, carry).overflow == (((a ^ add_spec(a, m, carry).value) & (m ^ add_spec(
            a,
            m,
            carry,
        ).value) & 0x80) != 0),
{
    let r = add_spec(a, m, carry).value;
    assert((((a ^ r) & (m ^ r) & 0x80) != 0) == ((a >= 0x80) == (m >= 0x80) && (r >= 0x80) != (a
        >= 0x80))) by (bit_vector);
}

/// A subtraction yields `(a - m - (1 - carry)) mod 256`, and it sets the
/// overflow flag exactly when the sign bits of the inputs differ and the
/// sign bit of the result differs from that of `a`.
pub proof fn lemma_subtract_identity(a: u8, m: u8, carry: bool)
    ensures
        subtract_spec(a, m, carry).value == (a - m - (1 - carry_value(carry))) % 256,
        subtract_spec(a, m, carry).carry == (a - m - (1 - carry_value(carry)) >= 0),
        subtract_spec(a, m, carry).overflow == (((a ^ m) & (a ^ subtract_spec(a, m, carry).value)
            & 0x80) != 0),
{
    let r = subtract_spec(a, m, carry).value;
    assert((((a ^ m) & (a ^ r) & 0x80) != 0) == ((a >= 0x80) != (m >= 0x80) && (r >= 0x80) != (a
        >= 0x80))) by (bit_vector);
}

/// A comparison sets carry, zero and negative as a subtraction with the
/// carry set does.
pub proof fn lemma_compare_is_subtraction(register: u8, m: u8)
    ensures
        compare_spec(register, m).carry == subtract_spec(register, m, true).carry,
        compare_spec(register, m).zero == (subtract_spec(register, m, true).value == 0),
        compare_spec(register, m).negative == is_negative(subtract_spec(register, m, true).value),
{
}

} // verus!
