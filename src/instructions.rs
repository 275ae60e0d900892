//! The instruction set: operands, instructions, and their byte encoding.
use vstd::prelude::*;

verus! {

/// An 8-bit register operand; `Memory` is the byte addressed by HL (written M).
#[derive(Debug, Clone, Copy, PartialEq, Eq, Structural)]
pub enum Register {
    A,
    B,
    C,
    D,
    E,
    H,
    L,
    Memory,
}

/// A 16-bit register pair operand.
#[derive(Debug, Clone, Copy, PartialEq, Eq, Structural)]
pub enum RegisterPair {
    BC,
    DE,
    HL,
    SP,
}

/// A branch condition, tested against the condition flags.
#[derive(Debug, Clone, Copy, PartialEq, Eq, Structural)]
pub enum Condition {
    NotZero,
    Zero,
    NoCarry,
    Carry,
    OddParity,
    EvenParity,
    Plus,
    Minus,
}

/// A decoded 8080 instruction. `Move(source, destination)`.
#[derive(Debug, Clone, Copy, PartialEq, Eq, Structural)]
pub enum Instruction {
    // Data transfer
    Move(Register, Register),
    MoveImmediate(Register, u8),
    LoadRegisterPairImmediate(RegisterPair, u16),
    LoadAccumDirect(u16),
    StoreAccumDirect(u16),
    LoadHLDirect(u16),
    StoreHLDirect(u16),
    LoadAccumIndirect(RegisterPair),
    StoreAccumIndirect(RegisterPair),
    ExchangeHLWithDE,
    // Arithmetic
    Add(Register),
    AddImmediate(u8),
    AddWithCarry(Register),
    AddImmediateWithCarry(u8),
    Subtract(Register),
    SubtractImmediate(u8),
    SubtractWithBorrow(Register),
    SubtractImmediateWithBorrow(u8),
    Increment(Register),
    Decrement(Register),
    IncrementRegPair(RegisterPair),
    DecrementRegPair(RegisterPair),
    AddRegPairToHL(RegisterPair),
    DecimalAdjustAccum,
    // Logical
    And(Register),
    AndImmediate(u8),
    Xor(Register),
    XorImmediate(u8),
    Or(Register),
    OrImmediate(u8),
    Compare(Register),
    CompareImmediate(u8),
    RotateLeft,
    RotateRight,
    RotateLeftThroughCarry,
    RotateRightThroughCarry,
    ComplementAccum,
    ComplementCarry,
    SetCarry,
    // Branch
    Jump(u16),
    ConditionalJump(Condition, u16),
    Call(u16),
    ConditionalCall(Condition, u16),
    Return,
    ConditionalReturn(Condition),
    Restart(u8),
    JumpHLIndirect,
    // Stack, I/O and machine control
    PushRegPair(RegisterPair),
    PushPSW,
    PopRegPair(RegisterPair),
    PopPSW,
    ExchangeStackTopWithHL,
    MoveHLToSP,
    Input(u8),
    Output(u8),
    EnableInterrupts,
    DisableInterrupts,
    Halt,
    NoOp,
}

impl Register {
    /// The 3-bit field that names this operand in an opcode.
    pub open spec fn code(self) -> int {
        match self {
            Register::B => 0,
            Register::C => 1,
            Register::D => 2,
            Register::E => 3,
            Register::H => 4,
            Register::L => 5,
            Register::Memory => 6,
            Register::A => 7,
        }
    }

    /// The operand named by a 3-bit field.
    pub fn from_code(code: u8) -> (r: Register)
        requires
            code < 8,
        ensures
            r.code() == code,
    {
        match code {
            0 => Register::B,
            1 => Register::C,
            2 => Register::D,
            3 => Register::E,
            4 => Register::H,
            5 => Register::L,
            6 => Register::Memory,
            _ => Register::A,
        }
    }
}

impl RegisterPair {
    /// The 2-bit field that names this pair in an opcode.
    pub open spec fn code(self) -> int {
        match self {
            RegisterPair::BC => 0,
            RegisterPair::DE => 1,
            RegisterPair::HL => 2,
            RegisterPair::SP => 3,
        }
    }

    /// The pair named by a 2-bit field.
    pub fn from_code(code: u8) -> (r: RegisterPair)
        requires
            code < 4,
        ensures
            r.code() == code,
    {
        match code {
            0 => RegisterPair::BC,
            1 => RegisterPair::DE,
            2 => RegisterPair::HL,
            _ => RegisterPair::SP,
        }
    }
}

impl Condition {
    /// The 3-bit field that names this condition in an opcode.
    pub open spec fn code(self) -> int {
        match self {
            Condition::NotZero => 0,
            Condition::Zero => 1,
            Condition::NoCarry => 2,
            Condition::Carry => 3,
            Condition::OddParity => 4,
            Condition::EvenParity => 5,
            Condition::Plus => 6,
            Condition::Minus => 7,
        }
    }

    /// The condition named by a 3-bit field.
    pub fn from_code(code: u8) -> (r: Condition)
        requires
            code < 8,
        ensures
            r.code() == code,
    {
        match code {
            0 => Condition::NotZero,
            1 => Condition::Zero,
            2 => Condition::NoCarry,
            3 => Condition::Carry,
            4 => Condition::OddParity,
            5 => Condition::EvenParity,
            6 => Condition::Plus,
            _ => Condition::Minus,
        }
    }
}

/// The documented opcode that an opcode byte stands for: the undocumented
/// bytes are aliases of NOP, JMP, RET and CALL.
pub open spec fn canonical_opcode(byte: u8) -> int {
    if byte < 0x40 && byte % 8 == 0 {
        0x00
    } else if byte == 0xCB {
        0xC3
    } else if byte == 0xD9 {
        0xC9
    } else if byte == 0xDD || byte == 0xED || byte == 0xFD {
        0xCD
    } else {
        byte as int
    }
}

impl Instruction {
    /// The first byte of the instruction's encoding.
    pub open spec fn opcode(self) -> int {
        match self {
            Instruction::Move(s, d) => 0x40 + 8 * d.code() + s.code(),
            Instruction::MoveImmediate(d, _) => 0x06 + 8 * d.code(),
            Instruction::LoadRegisterPairImmediate(rp, _) => 0x01 + 16 * rp.code(),
            Instruction::LoadAccumDirect(_) => 0x3A,
            Instruction::StoreAccumDirect(_) => 0x32,
            Instruction::LoadHLDirect(_) => 0x2A,
            Instruction::StoreHLDirect(_) => 0x22,
            Instruction::LoadAccumIndirect(rp) => 0x0A + 16 * rp.code(),
            Instruction::StoreAccumIndirect(rp) => 0x02 + 16 * rp.code(),
            Instruction::ExchangeHLWithDE => 0xEB,
            Instruction::Add(r) => 0x80 + r.code(),
            Instruction::AddImmediate(_) => 0xC6,
            Instruction::AddWithCarry(r) => 0x88 + r.code(),
            Instruction::AddImmediateWithCarry(_) => 0xCE,
            Instruction::Subtract(r) => 0x90 + r.code(),
            Instruction::SubtractImmediate(_) => 0xD6,
            Instruction::SubtractWithBorrow(r) => 0x98 + r.code(),
            Instruction::SubtractImmediateWithBorrow(_) => 0xDE,
            Instruction::Increment(r) => 0x04 + 8 * r.code(),
            Instruction::Decrement(r) => 0x05 + 8 * r.code(),
            Instruction::IncrementRegPair(rp) => 0x03 + 16 * rp.code(),
            Instruction::DecrementRegPair(rp) => 0x0B + 16 * rp.code(),
            Instruction::AddRegPairToHL(rp) => 0x09 + 16 * rp.code(),
            Instruction::DecimalAdjustAccum => 0x27,
            Instruction::And(r) => 0xA0 + r.code(),
            Instruction::AndImmediate(_) => 0xE6,
            Instruction::Xor(r) => 0xA8 + r.code(),
            Instruction::XorImmediate(_) => 0xEE,
            Instruction::Or(r) => 0xB0 + r.code(),
            Instruction::OrImmediate(_) => 0xF6,
            Instruction::Compare(r) => 0xB8 + r.code(),
            Instruction::CompareImmediate(_) => 0xFE,
            Instruction::RotateLeft => 0x07,
            Instruction::RotateRight => 0x0F,
            Instruction::RotateLeftThroughCarry => 0x17,
            Instruction::RotateRightThroughCarry => 0x1F,
            Instruction::ComplementAccum => 0x2F,
            Instruction::ComplementCarry => 0x3F,
            Instruction::SetCarry => 0x37,
            Instruction::Jump(_) => 0xC3,
            Instruction::ConditionalJump(c, _) => 0xC2 + 8 * c.code(),
            Instruction::Call(_) => 0xCD,
            Instruction::ConditionalCall(c, _) => 0xC4 + 8 * c.code(),
            Instruction::Return => 0xC9,
            Instruction::ConditionalReturn(c) => 0xC0 + 8 * c.code(),
            Instruction::Restart(n) => 0xC7 + 8 * n,
            Instruction::JumpHLIndirect => 0xE9,
            Instruction::PushRegPair(rp) => 0xC5 + 16 * rp.code(),
            Instruction::PushPSW => 0xF5,
            Instruction::PopRegPair(rp) => 0xC1 + 16 * rp.code(),
            Instruction::PopPSW => 0xF1,
            Instruction::ExchangeStackTopWithHL => 0xE3,
            Instruction::MoveHLToSP => 0xF9,
            Instruction::Input(_) => 0xDB,
            Instruction::Output(_) => 0xD3,
            Instruction::EnableInterrupts => 0xFB,
            Instruction::DisableInterrupts => 0xF3,
            Instruction::Halt => 0x76,
            Instruction::NoOp => 0x00,
        }
    }

    /// Whether the instruction has an encoding: operand combinations that
    /// would collide with another opcode are excluded.
    pub open spec fn is_encodable(self) -> bool {
        match self {
            Instruction::Move(s, d) => !(s == Register::Memory && d == Register::Memory),
            Instruction::LoadAccumIndirect(rp) => rp == RegisterPair::BC || rp == RegisterPair::DE,
            Instruction::StoreAccumIndirect(rp) => rp == RegisterPair::BC || rp == RegisterPair::DE,
            Instruction::PushRegPair(rp) => rp != RegisterPair::SP,
            Instruction::PopRegPair(rp) => rp != RegisterPair::SP,
            Instruction::Restart(n) => n < 8,
            _ => true,
        }
    }

    /// Number of operand bytes that follow the opcode: 0, 1 (data) or 2 (a
    /// little-endian word).
    pub open spec fn operand_size(self) -> nat {
        match self {
            Instruction::MoveImmediate(..) | Instruction::AddImmediate(_)
            | Instruction::AddImmediateWithCarry(_) | Instruction::SubtractImmediate(_)
            | Instruction::SubtractImmediateWithBorrow(_) | Instruction::AndImmediate(_)
            | Instruction::XorImmediate(_) | Instruction::OrImmediate(_)
            | Instruction::CompareImmediate(_) | Instruction::Input(_)
            | Instruction::Output(_) => 1,
            Instruction::LoadRegisterPairImmediate(..) | Instruction::LoadAccumDirect(_)
            | Instruction::StoreAccumDirect(_) | Instruction::LoadHLDirect(_)
            | Instruction::StoreHLDirect(_) | Instruction::Jump(_)
            | Instruction::ConditionalJump(..) | Instruction::Call(_)
            | Instruction::ConditionalCall(..) => 2,
            _ => 0,
        }
    }

    /// The encoded length in bytes.
    pub open spec fn size(self) -> nat {
        1 + self.operand_size()
    }

    /// The 8-bit operand of a two-byte instruction.
    pub open spec fn data8(self) -> u8 {
        match self {
            Instruction::MoveImmediate(_, d) => d,
            Instruction::AddImmediate(d) => d,
            Instruction::AddImmediateWithCarry(d) => d,
            Instruction::SubtractImmediate(d) => d,
            Instruction::SubtractImmediateWithBorrow(d) => d,
            Instruction::AndImmediate(d) => d,
            Instruction::XorImmediate(d) => d,
            Instruction::OrImmediate(d) => d,
            Instruction::CompareImmediate(d) => d,
            Instruction::Input(d) => d,
            Instruction::Output(d) => d,
            _ => 0,
        }
    }

    /// The 16-bit operand (data or address) of a three-byte instruction.
    pub open spec fn data16(self) -> u16 {
        match self {
            Instruction::LoadRegisterPairImmediate(_, d) => d,
            Instruction::LoadAccumDirect(a) => a,
            Instruction::StoreAccumDirect(a) => a,
            Instruction::LoadHLDirect(a) => a,
            Instruction::StoreHLDirect(a) => a,
            Instruction::Jump(a) => a,
            Instruction::ConditionalJump(_, a) => a,
            Instruction::Call(a) => a,
            Instruction::ConditionalCall(_, a) => a,
            _ => 0,
        }
    }

    /// Whether the instruction is what the bytes `b0 b1 b2` encode: its
    /// opcode is the documented form of `b0`, and its operand is `b1`
    /// (one operand byte) or the little-endian word `b1 b2` (two).
    pub open spec fn is_encoded_by(self, b0: u8, b1: u8, b2: u8) -> bool {
        &&& self.is_encodable()
        &&& self.opcode() == canonical_opcode(b0)
        &&& self.operand_size() == 1 ==> self.data8() == b1
        &&& self.operand_size() == 2 ==> self.data16() == b1 + 256 * b2
    }

    /// MOV, MVI, LXI, LDA, STA, LHLD, SHLD, LDAX, STAX, XCHG.
    pub open spec fn is_data_transfer(self) -> bool {
        match self {
            Instruction::Move(..) | Instruction::MoveImmediate(..)
            | Instruction::LoadRegisterPairImmediate(..) | Instruction::LoadAccumDirect(_)
            | Instruction::StoreAccumDirect(_) | Instruction::LoadHLDirect(_)
            | Instruction::StoreHLDirect(_) | Instruction::LoadAccumIndirect(_)
            | Instruction::StoreAccumIndirect(_) | Instruction::ExchangeHLWithDE => true,
            _ => false,
        }
    }

    /// ADD, ADI, ADC, ACI, SUB, SUI, SBB, SBI, INR, DCR, INX, DCX, DAD, DAA.
    pub open spec fn is_arithmetic(self) -> bool {
        match self {
            Instruction::Add(_) | Instruction::AddImmediate(_) | Instruction::AddWithCarry(_)
            | Instruction::AddImmediateWithCarry(_) | Instruction::Subtract(_)
            | Instruction::SubtractImmediate(_) | Instruction::SubtractWithBorrow(_)
            | Instruction::SubtractImmediateWithBorrow(_) | Instruction::Increment(_)
            | Instruction::Decrement(_) | Instruction::IncrementRegPair(_)
            | Instruction::DecrementRegPair(_) | Instruction::AddRegPairToHL(_)
            | Instruction::DecimalAdjustAccum => true,
            _ => false,
        }
    }

    /// ANA, ANI, XRA, XRI, ORA, ORI, CMP, CPI, RLC, RRC, RAL, RAR, CMA, CMC, STC.
    pub open spec fn is_logical(self) -> bool {
        match self {
            Instruction::And(_) | Instruction::AndImmediate(_) | Instruction::Xor(_)
            | Instruction::XorImmediate(_) | Instruction::Or(_) | Instruction::OrImmediate(_)
            | Instruction::Compare(_) | Instruction::CompareImmediate(_)
            | Instruction::RotateLeft | Instruction::RotateRight
            | Instruction::RotateLeftThroughCarry | Instruction::RotateRightThroughCarry
            | Instruction::ComplementAccum | Instruction::ComplementCarry
            | Instruction::SetCarry => true,
            _ => false,
        }
    }

    /// JMP, Jcond, CALL, Ccond, RET, Rcond, RST, PCHL.
    pub open spec fn is_branch(self) -> bool {
        match self {
            Instruction::Jump(_) | Instruction::ConditionalJump(..) | Instruction::Call(_)
            | Instruction::ConditionalCall(..) | Instruction::Return
            | Instruction::ConditionalReturn(_) | Instruction::Restart(_)
            | Instruction::JumpHLIndirect => true,
            _ => false,
        }
    }

    /// PUSH, POP, XTHL, SPHL, IN, OUT, EI, DI, HLT, NOP.
    pub open spec fn is_machine_control(self) -> bool {
        !self.is_data_transfer() && !self.is_arithmetic() && !self.is_logical()
            && !self.is_branch()
    }

    /// The encoded length in bytes.
    pub fn length(&self) -> (r: u16)
        ensures
            r == self.size(),
    {
        match self {
            Instruction::MoveImmediate(..) | Instruction::AddImmediate(_)
            | Instruction::AddImmediateWithCarry(_) | Instruction::SubtractImmediate(_)
            | Instruction::SubtractImmediateWithBorrow(_) | Instruction::AndImmediate(_)
            | Instruction::XorImmediate(_) | Instruction::OrImmediate(_)
            | Instruction::CompareImmediate(_) | Instruction::Input(_)
            | Instruction::Output(_) => 2,
            Instruction::LoadRegisterPairImmediate(..) | Instruction::LoadAccumDirect(_)
            | Instruction::StoreAccumDirect(_) | Instruction::LoadHLDirect(_)
            | Instruction::StoreHLDirect(_) | Instruction::Jump(_)
            | Instruction::ConditionalJump(..) | Instruction::Call(_)
            | Instruction::ConditionalCall(..) => 3,
            _ => 1,
        }
    }
}

} // verus!

verus! {

pub open spec fn register_of(c: int) -> Register {
    if c == 0 { Register::B } else if c == 1 { Register::C } else if c == 2 { Register::D }
    else if c == 3 { Register::E } else if c == 4 { Register::H } else if c == 5 { Register::L }
    else if c == 6 { Register::Memory } else { Register::A }
}

pub open spec fn pair_of(c: int) -> RegisterPair {
    if c == 0 { RegisterPair::BC } else if c == 1 { RegisterPair::DE }
    else if c == 2 { RegisterPair::HL } else { RegisterPair::SP }
}

pub open spec fn condition_of(c: int) -> Condition {
    if c == 0 { Condition::NotZero } else if c == 1 { Condition::Zero }
    else if c == 2 { Condition::NoCarry } else if c == 3 { Condition::Carry }
    else if c == 4 { Condition::OddParity } else if c == 5 { Condition::EvenParity }
    else if c == 6 { Condition::Plus } else { Condition::Minus }
}

/// The instruction with opcode fields `hh mmm lll` and operands `d8` / `d16`,
/// as the opcode map lays them out (undocumented opcodes included).
/// The instruction that the bytes `b0 b1 b2` encode.
pub open spec fn decoded(b0: u8, b1: u8, b2: u8) -> Instruction {
    from_fields(b0 as int / 64, (b0 as int / 8) % 8, b0 as int % 8, b1, (b1 + 256 * b2) as u16)
}

pub open spec fn from_fields(hi: int, mid: int, lo: int, d8: u8, d16: u16) -> Instruction {
    let r = register_of(mid);
    let rp = pair_of(mid / 2);
    let even = mid % 2 == 0;
    if hi == 1 {
        if mid == 6 && lo == 6 { Instruction::Halt }
        else { Instruction::Move(register_of(lo), r) }
    } else if hi == 2 {
        let s = register_of(lo);
        if mid == 0 { Instruction::Add(s) } else if mid == 1 { Instruction::AddWithCarry(s) }
        else if mid == 2 { Instruction::Subtract(s) }
        else if mid == 3 { Instruction::SubtractWithBorrow(s) }
        else if mid == 4 { Instruction::And(s) } else if mid == 5 { Instruction::Xor(s) }
        else if mid == 6 { Instruction::Or(s) } else { Instruction::Compare(s) }
    } else if hi == 0 {
        if lo == 0 { Instruction::NoOp }
        else if lo == 1 {
            if even { Instruction::LoadRegisterPairImmediate(rp, d16) }
            else { Instruction::AddRegPairToHL(rp) }
        } else if lo == 2 {
            if mid == 0 || mid == 2 { Instruction::StoreAccumIndirect(rp) }
            else if mid == 1 || mid == 3 { Instruction::LoadAccumIndirect(rp) }
            else if mid == 4 { Instruction::StoreHLDirect(d16) }
            else if mid == 5 { Instruction::LoadHLDirect(d16) }
            else if mid == 6 { Instruction::StoreAccumDirect(d16) }
            else { Instruction::LoadAccumDirect(d16) }
        } else if lo == 3 {
            if even { Instruction::IncrementRegPair(rp) } else { Instruction::DecrementRegPair(rp) }
        } else if lo == 4 { Instruction::Increment(r) }
        else if lo == 5 { Instruction::Decrement(r) }
        else if lo == 6 { Instruction::MoveImmediate(r, d8) }
        else {
            if mid == 0 { Instruction::RotateLeft } else if mid == 1 { Instruction::RotateRight }
            else if mid == 2 { Instruction::RotateLeftThroughCarry }
            else if mid == 3 { Instruction::RotateRightThroughCarry }
            else if mid == 4 { Instruction::DecimalAdjustAccum }
            else if mid == 5 { Instruction::ComplementAccum }
            else if mid == 6 { Instruction::SetCarry } else { Instruction::ComplementCarry }
        }
    } else {
        if lo == 0 { Instruction::ConditionalReturn(condition_of(mid)) }
        else if lo == 1 {
            if mid == 6 { Instruction::PopPSW } else if even { Instruction::PopRegPair(rp) }
            else if mid == 5 { Instruction::JumpHLIndirect }
            else if mid == 7 { Instruction::MoveHLToSP } else { Instruction::Return }
        } else if lo == 2 { Instruction::ConditionalJump(condition_of(mid), d16) }
        else if lo == 3 {
            if mid == 0 || mid == 1 { Instruction::Jump(d16) } else if mid == 2 { Instruction::Output(d8) }
            else if mid == 3 { Instruction::Input(d8) }
            else if mid == 4 { Instruction::ExchangeStackTopWithHL }
            else if mid == 5 { Instruction::ExchangeHLWithDE }
            else if mid == 6 { Instruction::DisableInterrupts } else { Instruction::EnableInterrupts }
        } else if lo == 4 { Instruction::ConditionalCall(condition_of(mid), d16) }
        else if lo == 5 {
            if mid == 6 { Instruction::PushPSW } else if even { Instruction::PushRegPair(rp) }
            else { Instruction::Call(d16) }
        } else if lo == 6 {
            if mid == 0 { Instruction::AddImmediate(d8) }
            else if mid == 1 { Instruction::AddImmediateWithCarry(d8) }
            else if mid == 2 { Instruction::SubtractImmediate(d8) }
            else if mid == 3 { Instruction::SubtractImmediateWithBorrow(d8) }
            else if mid == 4 { Instruction::AndImmediate(d8) }
            else if mid == 5 { Instruction::XorImmediate(d8) }
            else if mid == 6 { Instruction::OrImmediate(d8) } else { Instruction::CompareImmediate(d8) }
        } else { Instruction::Restart(mid as u8) }
    }
}

proof fn lemma_register_code(r: Register)
    ensures
        register_of(r.code()) == r,
        0 <= r.code() < 8,
{
}

proof fn lemma_pair_code(rp: RegisterPair)
    ensures
        pair_of(rp.code()) == rp,
        0 <= rp.code() < 4,
{
}

proof fn lemma_condition_code(c: Condition)
    ensures
        condition_of(c.code()) == c,
        0 <= c.code() < 8,
{
}

proof fn lemma_fields(b0: u8, hi: int, mid: int, lo: int)
    requires
        0 <= hi < 4,
        0 <= mid < 8,
        0 <= lo < 8,
        b0 == 64 * hi + 8 * mid + lo,
    ensures
        b0 as int / 64 == hi,
        (b0 as int / 8) % 8 == mid,
        b0 as int % 8 == lo,
{
}

#[verifier::spinoff_prover]
proof fn lemma_encoded_is_decoded_data_transfer(i: Instruction, b0: u8, b1: u8, b2: u8)
    requires
        i.is_data_transfer(),
        i.is_encoded_by(b0, b1, b2),
    ensures
        i == decoded(b0, b1, b2),
{
    match i {
        Instruction::Move(s, d) => {
            assert(i == decoded(b0, b1, b2)) by {
                lemma_register_code(s);
                lemma_register_code(d);
                lemma_fields(b0, 1, d.code(), s.code());
            }
        },
        Instruction::MoveImmediate(d, _) => {
            assert(i == decoded(b0, b1, b2)) by {
                lemma_register_code(d);
                lemma_fields(b0, 0, d.code(), 6);
            }
        },
        Instruction::LoadRegisterPairImmediate(rp, _) => {
            assert(i == decoded(b0, b1, b2)) by {
                lemma_pair_code(rp);
                lemma_fields(b0, 0, 2 * rp.code(), 1);
            }
        },
        Instruction::LoadAccumDirect(_) => {
            assert(i == decoded(b0, b1, b2)) by {
                lemma_fields(b0, 0, 7, 2);
            }
        },
        Instruction::StoreAccumDirect(_) => {
            assert(i == decoded(b0, b1, b2)) by {
                lemma_fields(b0, 0, 6, 2);
            }
        },
        Instruction::LoadHLDirect(_) => {
            assert(i == decoded(b0, b1, b2)) by {
                lemma_fields(b0, 0, 5, 2);
            }
        },
        Instruction::StoreHLDirect(_) => {
            assert(i == decoded(b0, b1, b2)) by {
                lemma_fields(b0, 0, 4, 2);
            }
        },
        Instruction::LoadAccumIndirect(rp) => {
            assert(i == decoded(b0, b1, b2)) by {
                lemma_pair_code(rp);
                lemma_fields(b0, 0, 2 * rp.code() + 1, 2);
            }
        },
        Instruction::StoreAccumIndirect(rp) => {
            assert(i == decoded(b0, b1, b2)) by {
                lemma_pair_code(rp);
                lemma_fields(b0, 0, 2 * rp.code(), 2);
            }
        },
        Instruction::ExchangeHLWithDE => {
            assert(i == decoded(b0, b1, b2)) by {
                lemma_fields(b0, 3, 5, 3);
            }
        },
        _ => {},
    }
}

#[verifier::spinoff_prover]
proof fn lemma_encoded_is_decoded_arithmetic(i: Instruction, b0: u8, b1: u8, b2: u8)
    requires
        i.is_arithmetic(),
        i.is_encoded_by(b0, b1, b2),
    ensures
        i == decoded(b0, b1, b2),
{
    match i {
        Instruction::Add(r) => {
            assert(i == decoded(b0, b1, b2)) by {
                lemma_register_code(r);
                lemma_fields(b0, 2, 0, r.code());
            }
        },
        Instruction::AddImmediate(_) => {
            assert(i == decoded(b0, b1, b2)) by {
                lemma_fields(b0, 3, 0, 6);
            }
        },
        Instruction::AddWithCarry(r) => {
            assert(i == decoded(b0, b1, b2)) by {
                lemma_register_code(r);
                lemma_fields(b0, 2, 1, r.code());
            }
        },
        Instruction::AddImmediateWithCarry(_) => {
            assert(i == decoded(b0, b1, b2)) by {
                lemma_fields(b0, 3, 1, 6);
            }
        },
        Instruction::Subtract(r) => {
            assert(i == decoded(b0, b1, b2)) by {
                lemma_register_code(r);
                lemma_fields(b0, 2, 2, r.code());
            }
        },
        Instruction::SubtractImmediate(_) => {
            assert(i == decoded(b0, b1, b2)) by {
                lemma_fields(b0, 3, 2, 6);
            }
        },
        Instruction::SubtractWithBorrow(r) => {
            assert(i == decoded(b0, b1, b2)) by {
                lemma_register_code(r);
                lemma_fields(b0, 2, 3, r.code());
            }
        },
        Instruction::SubtractImmediateWithBorrow(_) => {
            assert(i == decoded(b0, b1, b2)) by {
                lemma_fields(b0, 3, 3, 6);
            }
        },
        Instruction::Increment(r) => {
            assert(i == decoded(b0, b1, b2)) by {
                lemma_register_code(r);
                lemma_fields(b0, 0, r.code(), 4);
            }
        },
        Instruction::Decrement(r) => {
            assert(i == decoded(b0, b1, b2)) by {
                lemma_register_code(r);
                lemma_fields(b0, 0, r.code(), 5);
            }
        },
        Instruction::IncrementRegPair(rp) => {
            assert(i == decoded(b0, b1, b2)) by {
                lemma_pair_code(rp);
                lemma_fields(b0, 0, 2 * rp.code(), 3);
            }
        },
        Instruction::DecrementRegPair(rp) => {
            assert(i == decoded(b0, b1, b2)) by {
                lemma_pair_code(rp);
                lemma_fields(b0, 0, 2 * rp.code() + 1, 3);
            }
        },
        Instruction::AddRegPairToHL(rp) => {
            assert(i == decoded(b0, b1, b2)) by {
                lemma_pair_code(rp);
                lemma_fields(b0, 0, 2 * rp.code() + 1, 1);
            }
        },
        Instruction::DecimalAdjustAccum => {
            assert(i == decoded(b0, b1, b2)) by {
                lemma_fields(b0, 0, 4, 7);
            }
        },
        _ => {},
    }
}

#[verifier::spinoff_prover]
proof fn lemma_encoded_is_decoded_logical(i: Instruction, b0: u8, b1: u8, b2: u8)
    requires
        i.is_logical(),
        i.is_encoded_by(b0, b1, b2),
    ensures
        i == decoded(b0, b1, b2),
{
    match i {
        Instruction::And(r) => {
            assert(i == decoded(b0, b1, b2)) by {
                lemma_register_code(r);
                lemma_fields(b0, 2, 4, r.code());
            }
        },
        Instruction::AndImmediate(_) => {
            assert(i == decoded(b0, b1, b2)) by {
                lemma_fields(b0, 3, 4, 6);
            }
        },
        Instruction::Xor(r) => {
            assert(i == decoded(b0, b1, b2)) by {
                lemma_register_code(r);
                lemma_fields(b0, 2, 5, r.code());
            }
        },
        Instruction::XorImmediate(_) => {
            assert(i == decoded(b0, b1, b2)) by {
                lemma_fields(b0, 3, 5, 6);
            }
        },
        Instruction::Or(r) => {
            assert(i == decoded(b0, b1, b2)) by {
                lemma_register_code(r);
                lemma_fields(b0, 2, 6, r.code());
            }
        },
        Instruction::OrImmediate(_) => {
            assert(i == decoded(b0, b1, b2)) by {
                lemma_fields(b0, 3, 6, 6);
            }
        },
        Instruction::Compare(r) => {
            assert(i == decoded(b0, b1, b2)) by {
                lemma_register_code(r);
                lemma_fields(b0, 2, 7, r.code());
            }
        },
        Instruction::CompareImmediate(_) => {
            assert(i == decoded(b0, b1, b2)) by {
                lemma_fields(b0, 3, 7, 6);
            }
        },
        Instruction::RotateLeft => {
            assert(i == decoded(b0, b1, b2)) by {
                lemma_fields(b0, 0, 0, 7);
            }
        },
        Instruction::RotateRight => {
            assert(i == decoded(b0, b1, b2)) by {
                lemma_fields(b0, 0, 1, 7);
            }
        },
        Instruction::RotateLeftThroughCarry => {
            assert(i == decoded(b0, b1, b2)) by {
                lemma_fields(b0, 0, 2, 7);
            }
        },
        Instruction::RotateRightThroughCarry => {
            assert(i == decoded(b0, b1, b2)) by {
                lemma_fields(b0, 0, 3, 7);
            }
        },
        Instruction::ComplementAccum => {
            assert(i == decoded(b0, b1, b2)) by {
                lemma_fields(b0, 0, 5, 7);
            }
        },
        Instruction::ComplementCarry => {
            assert(i == decoded(b0, b1, b2)) by {
                lemma_fields(b0, 0, 7, 7);
            }
        },
        Instruction::SetCarry => {
            assert(i == decoded(b0, b1, b2)) by {
                lemma_fields(b0, 0, 6, 7);
            }
        },
        _ => {},
    }
}

#[verifier::spinoff_prover]
proof fn lemma_encoded_is_decoded_branch(i: Instruction, b0: u8, b1: u8, b2: u8)
    requires
        i.is_branch(),
        i.is_encoded_by(b0, b1, b2),
    ensures
        i == decoded(b0, b1, b2),
{
    match i {
        Instruction::Jump(_) => {
            assert(i == decoded(b0, b1, b2));
        },
        Instruction::ConditionalJump(c, _) => {
            assert(i == decoded(b0, b1, b2)) by {
                lemma_condition_code(c);
                lemma_fields(b0, 3, c.code(), 2);
            }
        },
        Instruction::Call(_) => {
            assert(i == decoded(b0, b1, b2));
        },
        Instruction::ConditionalCall(c, _) => {
            assert(i == decoded(b0, b1, b2)) by {
                lemma_condition_code(c);
                lemma_fields(b0, 3, c.code(), 4);
            }
        },
        Instruction::Return => {
            assert(i == decoded(b0, b1, b2));
        },
        Instruction::ConditionalReturn(c) => {
            assert(i == decoded(b0, b1, b2)) by {
                lemma_condition_code(c);
                lemma_fields(b0, 3, c.code(), 0);
            }
        },
        Instruction::Restart(n) => {
            assert(i == decoded(b0, b1, b2)) by {
                lemma_fields(b0, 3, n as int, 7);
            }
        },
        Instruction::JumpHLIndirect => {
            assert(i == decoded(b0, b1, b2)) by {
                lemma_fields(b0, 3, 5, 1);
            }
        },
        _ => {},
    }
}

#[verifier::spinoff_prover]
proof fn lemma_encoded_is_decoded_machine_control(i: Instruction, b0: u8, b1: u8, b2: u8)
    requires
        i.is_machine_control(),
        i.is_encoded_by(b0, b1, b2),
    ensures
        i == decoded(b0, b1, b2),
{
    match i {
        Instruction::PushRegPair(rp) => {
            assert(i == decoded(b0, b1, b2)) by {
                lemma_pair_code(rp);
                lemma_fields(b0, 3, 2 * rp.code(), 5);
            }
        },
        Instruction::PushPSW => {
            assert(i == decoded(b0, b1, b2)) by {
                lemma_fields(b0, 3, 6, 5);
            }
        },
        Instruction::PopRegPair(rp) => {
            assert(i == decoded(b0, b1, b2)) by {
                lemma_pair_code(rp);
                lemma_fields(b0, 3, 2 * rp.code(), 1);
            }
        },
        Instruction::PopPSW => {
            assert(i == decoded(b0, b1, b2)) by {
                lemma_fields(b0, 3, 6, 1);
            }
        },
        Instruction::ExchangeStackTopWithHL => {
            assert(i == decoded(b0, b1, b2)) by {
                lemma_fields(b0, 3, 4, 3);
            }
        },
        Instruction::MoveHLToSP => {
            assert(i == decoded(b0, b1, b2)) by {
                lemma_fields(b0, 3, 7, 1);
            }
        },
        Instruction::Input(_) => {
            assert(i == decoded(b0, b1, b2)) by {
                lemma_fields(b0, 3, 3, 3);
            }
        },
        Instruction::Output(_) => {
            assert(i == decoded(b0, b1, b2)) by {
                lemma_fields(b0, 3, 2, 3);
            }
        },
        Instruction::EnableInterrupts => {
            assert(i == decoded(b0, b1, b2)) by {
                lemma_fields(b0, 3, 7, 3);
            }
        },
        Instruction::DisableInterrupts => {
            assert(i == decoded(b0, b1, b2)) by {
                lemma_fields(b0, 3, 6, 3);
            }
        },
        Instruction::Halt => {
            assert(i == decoded(b0, b1, b2)) by {
                lemma_fields(b0, 1, 6, 6);
            }
        },
        Instruction::NoOp => {
            assert(i == decoded(b0, b1, b2));
        },
        _ => {},
    }
}

/// The encoding is unambiguous: an instruction that the bytes encode is the
/// one that they decode to.
pub proof fn lemma_encoded_is_decoded(i: Instruction, b0: u8, b1: u8, b2: u8)
    requires
        i.is_encoded_by(b0, b1, b2),
    ensures
        i == decoded(b0, b1, b2),
{
    if i.is_data_transfer() {
        lemma_encoded_is_decoded_data_transfer(i, b0, b1, b2);
    } else if i.is_arithmetic() {
        lemma_encoded_is_decoded_arithmetic(i, b0, b1, b2);
    } else if i.is_logical() {
        lemma_encoded_is_decoded_logical(i, b0, b1, b2);
    } else if i.is_branch() {
        lemma_encoded_is_decoded_branch(i, b0, b1, b2);
    } else {
        lemma_encoded_is_decoded_machine_control(i, b0, b1, b2);
    }
}

} // verus!
