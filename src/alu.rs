//! 8-bit arithmetic with the carry, half-carry and parity conventions of the 8080.
use vstd::prelude::*;

verus! {

/// `x + y + carry_in`: the low byte of the sum, the carry out of bit 7, and
/// the half-carry out of bit 3.
pub open spec fn add_spec(x: u8, y: u8, carry_in: bool) -> (u8, bool, bool) {
    let c: int = if carry_in { 1 } else { 0 };
    let sum = x + y + c;
    ((sum % 256) as u8, sum >= 256, x % 16 + y % 16 + c >= 16)
}

/// `x - y - borrow_in`, computed as the addition `x + !y + !borrow_in`: the
/// carry is the complement of that addition's carry out (set on a borrow),
/// and the half-carry is that addition's own.
pub open spec fn sub_spec(x: u8, y: u8, borrow_in: bool) -> (u8, bool, bool) {
    let r = add_spec(x, (255 - y) as u8, !borrow_in);
    (r.0, !r.1, r.2)
}

/// Decimal adjustment of the accumulator `a` given the carry and half-carry
/// flags: the adjusted value, the new carry and the new half-carry.
pub open spec fn daa_spec(a: u8, carry: bool, aux_carry: bool) -> (u8, bool, bool) {
    let low_fix = aux_carry || a % 16 > 9;
    let after_low: int = if low_fix { a + 6 } else { a as int };
    let high_fix = carry || after_low / 16 > 9;
    let adjusted: int = if high_fix { after_low + 0x60 } else { after_low };
    ((adjusted % 256) as u8, high_fix, low_fix && a % 16 + 6 >= 16)
}

/// The number of one bits in `v`.
pub open spec fn ones(v: nat) -> nat
    decreases v,
{
    if v == 0 {
        0
    } else {
        v % 2 + ones(v / 2)
    }
}

/// Whether `v` has an even number of one bits.
pub open spec fn even_parity_spec(v: u8) -> bool {
    ones(v as nat) % 2 == 0
}

proof fn lemma_ones_bounded(v: nat)
    ensures
        ones(v) <= v,
    decreases v,
{
    if v > 0 {
        lemma_ones_bounded(v / 2);
    }
}

/// Whether `v` has an even number of one bits.
pub fn even_parity(v: u8) -> (r: bool)
    ensures
        r == even_parity_spec(v),
{
    let mut x: u8 = v;
    let mut count: u8 = 0;
    proof {
        lemma_ones_bounded(v as nat);
    }
    while x > 0
        invariant
            count + ones(x as nat) == ones(v as nat),
            ones(v as nat) <= 255,
        decreases x,
    {
        count = count + x % 2;
        x = x / 2;
    }
    count % 2 == 0
}

/// `x + y`: result, carry, half-carry.
pub fn add(x: u8, y: u8) -> (r: (u8, bool, bool))
    ensures
        r == add_spec(x, y, false),
{
    add_with_carry(x, y, false)
}

/// `x + y + carry`: result, carry, half-carry.
pub fn add_with_carry(x: u8, y: u8, carry: bool) -> (r: (u8, bool, bool))
    ensures
        r == add_spec(x, y, carry),
{
    let c: u16 = if carry { 1 } else { 0 };
    let sum: u16 = x as u16 + y as u16 + c;
    let half: u16 = (x % 16) as u16 + (y % 16) as u16 + c;
    ((sum % 256) as u8, sum >= 256, half >= 16)
}

/// `x - y`: result, borrow (the carry flag), half-carry.
pub fn sub(x: u8, y: u8) -> (r: (u8, bool, bool))
    ensures
        r == sub_spec(x, y, false),
{
    sub_with_borrow(x, y, false)
}

/// `x - y - borrow`: result, borrow (the carry flag), half-carry.
pub fn sub_with_borrow(x: u8, y: u8, borrow: bool) -> (r: (u8, bool, bool))
    ensures
        r == sub_spec(x, y, borrow),
{
    let (result, carry, aux_carry) = add_with_carry(x, 255 - y, !borrow);
    (result, !carry, aux_carry)
}

/// Decimal adjustment of `value`: result, carry, half-carry.
pub fn decimal_adjust(value: u8, carry: bool, aux_carry: bool) -> (r: (u8, bool, bool))
    ensures
        r == daa_spec(value, carry, aux_carry),
{
    let low = value % 16;
    let low_fix = aux_carry || low > 9;
    let after_low: u16 = if low_fix { value as u16 + 6 } else { value as u16 };
    let high_fix = carry || after_low / 16 > 9;
    let adjusted: u16 = if high_fix { after_low + 0x60 } else { after_low };
    ((adjusted % 256) as u8, high_fix, low_fix && low + 6 >= 16)
}

} // verus!
