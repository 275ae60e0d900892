//! Decoding of opcode bytes by their bit fields: `hh mmm lll`.
use vstd::prelude::*;
use crate::instructions::{canonical_opcode, decoded, from_fields, Condition, Instruction, Register, RegisterPair};

verus! {

/// The byte at `k`, or 0 past the end.
pub open spec fn byte_or_zero(bytes: Seq<u8>, k: int) -> u8 {
    if k < bytes.len() {
        bytes[k]
    } else {
        0
    }
}

/// The instruction at the start of `bytes` (missing operand bytes read as 0).
pub open spec fn first_instruction(bytes: Seq<u8>) -> Instruction {
    decoded(byte_or_zero(bytes, 0), byte_or_zero(bytes, 1), byte_or_zero(bytes, 2))
}

/// The instructions that `bytes` holds one after another, up to the end or to
/// an instruction cut short by the end.
pub open spec fn listing(bytes: Seq<u8>) -> Seq<Instruction>
    decreases bytes.len(),
{
    if bytes.len() == 0 || first_instruction(bytes).size() > bytes.len() {
        seq![]
    } else {
        seq![first_instruction(bytes)] + listing(bytes.skip(first_instruction(bytes).size() as int))
    }
}

/// Decodes a whole program: the instructions one after another, stopping at
/// the end of the bytes or before an instruction that the end cuts short.
pub fn decode_all(bytes: &[u8]) -> (r: Vec<Instruction>)
    ensures
        r@ == listing(bytes@),
{
    let mut r: Vec<Instruction> = Vec::new();
    let mut k: usize = 0;
    let n = bytes.len();
    assert(bytes@.skip(0) == bytes@);
    assert(r@ + listing(bytes@) == listing(bytes@));
    while k < n
        invariant
            n == bytes@.len(),
            k <= n,
            r@ + listing(bytes@.skip(k as int)) == listing(bytes@),
        decreases n - k,
    {
        let b1 = if n - k > 1 { bytes[k + 1] } else { 0 };
        let b2 = if n - k > 2 { bytes[k + 2] } else { 0 };
        let instruction = decode(bytes[k], b1, b2);
        let size = instruction.length() as usize;
        let ghost rest = bytes@.skip(k as int);
        assert(first_instruction(rest) == instruction);
        if size > n - k {
            assert(listing(rest) == Seq::<Instruction>::empty());
            assert(r@ + listing(bytes@.skip(n as int)) == listing(bytes@)) by {
                assert(r@ + seq![] == r@);
            }
            k = n;
        } else {
            assert(rest.skip(size as int) == bytes@.skip(k + size));
            assert(r@.push(instruction) + listing(bytes@.skip(k + size)) == r@ + listing(rest));
            r.push(instruction);
            k = k + size;
        }
    }
    assert(bytes@.skip(n as int) == Seq::<u8>::empty());
    assert(r@ + listing(bytes@.skip(n as int)) == r@);
    r
}

/// The instruction encoded by the opcode byte `b0` followed by `b1` and `b2`
/// (those that the instruction does not use are ignored). Every byte decodes:
/// undocumented opcodes stand for their documented aliases.
pub fn decode(b0: u8, b1: u8, b2: u8) -> (r: Instruction)
    ensures
        r.is_encoded_by(b0, b1, b2),
        r == decoded(b0, b1, b2),
{
    let hi = b0 / 64;
    let mid = (b0 / 8) % 8;
    let lo = b0 % 8;
    let word: u16 = b1 as u16 + 256 * (b2 as u16);
    assert(b0 == 64 * hi + 8 * mid + lo);
    if hi == 1 {
        if lo == 6 && mid == 6 {
            Instruction::Halt
        } else {
            Instruction::Move(Register::from_code(lo), Register::from_code(mid))
        }
    } else if hi == 2 {
        let r = Register::from_code(lo);
        match mid {
            0 => Instruction::Add(r),
            1 => Instruction::AddWithCarry(r),
            2 => Instruction::Subtract(r),
            3 => Instruction::SubtractWithBorrow(r),
            4 => Instruction::And(r),
            5 => Instruction::Xor(r),
            6 => Instruction::Or(r),
            _ => Instruction::Compare(r),
        }
    } else if hi == 0 {
        decode_low_quarter(b0, mid, lo, b1, word)
    } else {
        decode_high_quarter(b0, mid, lo, b1, word)
    }
}

/// Opcodes `00 mmm lll`.
fn decode_low_quarter(b0: u8, mid: u8, lo: u8, b1: u8, word: u16) -> (r: Instruction)
    requires
        mid < 8,
        lo < 8,
        b0 == 8 * mid + lo,
    ensures
        r.is_encodable(),
        r.opcode() == canonical_opcode(b0),
        r.operand_size() == 1 ==> r.data8() == b1,
        r.operand_size() == 2 ==> r.data16() == word,
        r == from_fields(0, mid as int, lo as int, b1, word),
{
    let rp = RegisterPair::from_code(mid / 2);
    let even = mid % 2 == 0;
    match lo {
        0 => Instruction::NoOp,
        1 => {
            if even {
                Instruction::LoadRegisterPairImmediate(rp, word)
            } else {
                Instruction::AddRegPairToHL(rp)
            }
        },
        2 => match mid {
            0 => Instruction::StoreAccumIndirect(RegisterPair::BC),
            1 => Instruction::LoadAccumIndirect(RegisterPair::BC),
            2 => Instruction::StoreAccumIndirect(RegisterPair::DE),
            3 => Instruction::LoadAccumIndirect(RegisterPair::DE),
            4 => Instruction::StoreHLDirect(word),
            5 => Instruction::LoadHLDirect(word),
            6 => Instruction::StoreAccumDirect(word),
            _ => Instruction::LoadAccumDirect(word),
        },
        3 => {
            if even {
                Instruction::IncrementRegPair(rp)
            } else {
                Instruction::DecrementRegPair(rp)
            }
        },
        4 => Instruction::Increment(Register::from_code(mid)),
        5 => Instruction::Decrement(Register::from_code(mid)),
        6 => Instruction::MoveImmediate(Register::from_code(mid), b1),
        _ => match mid {
            0 => Instruction::RotateLeft,
            1 => Instruction::RotateRight,
            2 => Instruction::RotateLeftThroughCarry,
            3 => Instruction::RotateRightThroughCarry,
            4 => Instruction::DecimalAdjustAccum,
            5 => Instruction::ComplementAccum,
            6 => Instruction::SetCarry,
            _ => Instruction::ComplementCarry,
        },
    }
}

/// Opcodes `11 mmm lll`.
fn decode_high_quarter(b0: u8, mid: u8, lo: u8, b1: u8, word: u16) -> (r: Instruction)
    requires
        mid < 8,
        lo < 8,
        b0 == 192 + 8 * mid + lo,
    ensures
        r.is_encodable(),
        r.opcode() == canonical_opcode(b0),
        r.operand_size() == 1 ==> r.data8() == b1,
        r.operand_size() == 2 ==> r.data16() == word,
        r == from_fields(3, mid as int, lo as int, b1, word),
{
    let even = mid % 2 == 0;
    match lo {
        0 => Instruction::ConditionalReturn(Condition::from_code(mid)),
        1 => {
            if mid == 6 {
                Instruction::PopPSW
            } else if even {
                Instruction::PopRegPair(RegisterPair::from_code(mid / 2))
            } else if mid == 5 {
                Instruction::JumpHLIndirect
            } else if mid == 7 {
                Instruction::MoveHLToSP
            } else {
                Instruction::Return
            }
        },
        2 => Instruction::ConditionalJump(Condition::from_code(mid), word),
        3 => match mid {
            0 | 1 => Instruction::Jump(word),
            2 => Instruction::Output(b1),
            3 => Instruction::Input(b1),
            4 => Instruction::ExchangeStackTopWithHL,
            5 => Instruction::ExchangeHLWithDE,
            6 => Instruction::DisableInterrupts,
            _ => Instruction::EnableInterrupts,
        },
        4 => Instruction::ConditionalCall(Condition::from_code(mid), word),
        5 => {
            if mid == 6 {
                Instruction::PushPSW
            } else if even {
                Instruction::PushRegPair(RegisterPair::from_code(mid / 2))
            } else {
                Instruction::Call(word)
            }
        },
        6 => {
            match mid {
                0 => Instruction::AddImmediate(b1),
                1 => Instruction::AddImmediateWithCarry(b1),
                2 => Instruction::SubtractImmediate(b1),
                3 => Instruction::SubtractImmediateWithBorrow(b1),
                4 => Instruction::AndImmediate(b1),
                5 => Instruction::XorImmediate(b1),
                6 => Instruction::OrImmediate(b1),
                _ => Instruction::CompareImmediate(b1),
            }
        },
        _ => Instruction::Restart(mid),
    }
}

} // verus!
