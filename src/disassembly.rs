//! Assembly-language text of instructions, for listings and debug dumps:
//! the mnemonic in upper case, then the operands separated by ", ", with
//! data and addresses in upper-case hexadecimal after `0x`
//! (`MOV A, B`, `MVI H, 0xFF`, `LXI SP, 0x2400`, `RST 0x07`).
use vstd::prelude::*;
use crate::instructions::{Condition, Instruction, Register, RegisterPair};

verus! {

pub open spec fn hex_digits() -> Seq<char> {
    seq!['0', '1', '2', '3', '4', '5', '6', '7', '8', '9', 'A', 'B', 'C', 'D', 'E', 'F']
}

/// `0x` and two hexadecimal digits.
pub open spec fn hex8(v: u8) -> Seq<char> {
    seq!['0', 'x', hex_digits()[v as int / 16], hex_digits()[v as int % 16]]
}

/// `0x` and four hexadecimal digits.
pub open spec fn hex16(v: u16) -> Seq<char> {
    seq![
        '0',
        'x',
        hex_digits()[v as int / 4096],
        hex_digits()[(v as int / 256) % 16],
        hex_digits()[(v as int / 16) % 16],
        hex_digits()[v as int % 16],
    ]
}

pub open spec fn register_name(r: Register) -> Seq<char> {
    match r {
        Register::A => seq!['A'],
        Register::B => seq!['B'],
        Register::C => seq!['C'],
        Register::D => seq!['D'],
        Register::E => seq!['E'],
        Register::H => seq!['H'],
        Register::L => seq!['L'],
        Register::Memory => seq!['M'],
    }
}

pub open spec fn pair_name(rp: RegisterPair) -> Seq<char> {
    match rp {
        RegisterPair::BC => seq!['B', 'C'],
        RegisterPair::DE => seq!['D', 'E'],
        RegisterPair::HL => seq!['H', 'L'],
        RegisterPair::SP => seq!['S', 'P'],
    }
}

pub open spec fn condition_name(c: Condition) -> Seq<char> {
    match c {
        Condition::NotZero => seq!['N', 'Z'],
        Condition::Zero => seq!['Z'],
        Condition::NoCarry => seq!['N', 'C'],
        Condition::Carry => seq!['C'],
        Condition::OddParity => seq!['P', 'O'],
        Condition::EvenParity => seq!['P', 'E'],
        Condition::Plus => seq!['P'],
        Condition::Minus => seq!['M'],
    }
}

impl Instruction {
    pub open spec fn mnemonic(self) -> Seq<char> {
        match self {
            Instruction::Move(_, _) => seq!['M', 'O', 'V'],
            Instruction::MoveImmediate(_, _) => seq!['M', 'V', 'I'],
            Instruction::LoadRegisterPairImmediate(_, _) => seq!['L', 'X', 'I'],
            Instruction::LoadAccumDirect(_) => seq!['L', 'D', 'A'],
            Instruction::StoreAccumDirect(_) => seq!['S', 'T', 'A'],
            Instruction::LoadHLDirect(_) => seq!['L', 'H', 'L', 'D'],
            Instruction::StoreHLDirect(_) => seq!['S', 'H', 'L', 'D'],
            Instruction::LoadAccumIndirect(_) => seq!['L', 'D', 'A', 'X'],
            Instruction::StoreAccumIndirect(_) => seq!['S', 'T', 'A', 'X'],
            Instruction::ExchangeHLWithDE => seq!['X', 'C', 'H', 'G'],
            Instruction::Add(_) => seq!['A', 'D', 'D'],
            Instruction::AddImmediate(_) => seq!['A', 'D', 'I'],
            Instruction::AddWithCarry(_) => seq!['A', 'D', 'C'],
            Instruction::AddImmediateWithCarry(_) => seq!['A', 'C', 'I'],
            Instruction::Subtract(_) => seq!['S', 'U', 'B'],
            Instruction::SubtractImmediate(_) => seq!['S', 'U', 'I'],
            Instruction::SubtractWithBorrow(_) => seq!['S', 'B', 'B'],
            Instruction::SubtractImmediateWithBorrow(_) => seq!['S', 'B', 'I'],
            Instruction::Increment(_) => seq!['I', 'N', 'R'],
            Instruction::Decrement(_) => seq!['D', 'C', 'R'],
            Instruction::IncrementRegPair(_) => seq!['I', 'N', 'X'],
            Instruction::DecrementRegPair(_) => seq!['D', 'C', 'X'],
            Instruction::AddRegPairToHL(_) => seq!['D', 'A', 'D'],
            Instruction::DecimalAdjustAccum => seq!['D', 'A', 'A'],
            Instruction::And(_) => seq!['A', 'N', 'A'],
            Instruction::AndImmediate(_) => seq!['A', 'N', 'I'],
            Instruction::Xor(_) => seq!['X', 'R', 'A'],
            Instruction::XorImmediate(_) => seq!['X', 'R', 'I'],
            Instruction::Or(_) => seq!['O', 'R', 'A'],
            Instruction::OrImmediate(_) => seq!['O', 'R', 'I'],
            Instruction::Compare(_) => seq!['C', 'M', 'P'],
            Instruction::CompareImmediate(_) => seq!['C', 'P', 'I'],
            Instruction::RotateLeft => seq!['R', 'L', 'C'],
            Instruction::RotateRight => seq!['R', 'R', 'C'],
            Instruction::RotateLeftThroughCarry => seq!['R', 'A', 'L'],
            Instruction::RotateRightThroughCarry => seq!['R', 'A', 'R'],
            Instruction::ComplementAccum => seq!['C', 'M', 'A'],
            Instruction::ComplementCarry => seq!['C', 'M', 'C'],
            Instruction::SetCarry => seq!['S', 'T', 'C'],
            Instruction::Jump(_) => seq!['J', 'M', 'P'],
            Instruction::ConditionalJump(c, _) => seq!['J'] + condition_name(c),
            Instruction::Call(_) => seq!['C', 'A', 'L', 'L'],
            Instruction::ConditionalCall(c, _) => seq!['C'] + condition_name(c),
            Instruction::Return => seq!['R', 'E', 'T'],
            Instruction::ConditionalReturn(c) => seq!['R'] + condition_name(c),
            Instruction::Restart(_) => seq!['R', 'S', 'T'],
            Instruction::JumpHLIndirect => seq!['P', 'C', 'H', 'L'],
            Instruction::PushRegPair(_) => seq!['P', 'U', 'S', 'H'],
            Instruction::PushPSW => seq!['P', 'U', 'S', 'H'],
            Instruction::PopRegPair(_) => seq!['P', 'O', 'P'],
            Instruction::PopPSW => seq!['P', 'O', 'P'],
            Instruction::ExchangeStackTopWithHL => seq!['X', 'T', 'H', 'L'],
            Instruction::MoveHLToSP => seq!['S', 'P', 'H', 'L'],
            Instruction::Input(_) => seq!['I', 'N'],
            Instruction::Output(_) => seq!['O', 'U', 'T'],
            Instruction::EnableInterrupts => seq!['E', 'I'],
            Instruction::DisableInterrupts => seq!['D', 'I'],
            Instruction::Halt => seq!['H', 'L', 'T'],
            Instruction::NoOp => seq!['N', 'O', 'P'],
        }
    }

    /// The operand list; empty for instructions without operands.
    pub open spec fn operands(self) -> Seq<char> {
        match self {
            Instruction::Move(s, d) => register_name(d) + seq![',', ' '] + register_name(s),
            Instruction::MoveImmediate(r, v) => register_name(r) + seq![',', ' '] + hex8(v),
            Instruction::LoadRegisterPairImmediate(rp, v) => pair_name(rp) + seq![',', ' '] + hex16(v),
            Instruction::LoadAccumDirect(a) => hex16(a),
            Instruction::StoreAccumDirect(a) => hex16(a),
            Instruction::LoadHLDirect(a) => hex16(a),
            Instruction::StoreHLDirect(a) => hex16(a),
            Instruction::LoadAccumIndirect(rp) => pair_name(rp),
            Instruction::StoreAccumIndirect(rp) => pair_name(rp),
            Instruction::Add(r) => register_name(r),
            Instruction::AddImmediate(v) => hex8(v),
            Instruction::AddWithCarry(r) => register_name(r),
            Instruction::AddImmediateWithCarry(v) => hex8(v),
            Instruction::Subtract(r) => register_name(r),
            Instruction::SubtractImmediate(v) => hex8(v),
            Instruction::SubtractWithBorrow(r) => register_name(r),
            Instruction::SubtractImmediateWithBorrow(v) => hex8(v),
            Instruction::Increment(r) => register_name(r),
            Instruction::Decrement(r) => register_name(r),
            Instruction::IncrementRegPair(rp) => pair_name(rp),
            Instruction::DecrementRegPair(rp) => pair_name(rp),
            Instruction::AddRegPairToHL(rp) => pair_name(rp),
            Instruction::And(r) => register_name(r),
            Instruction::AndImmediate(v) => hex8(v),
            Instruction::Xor(r) => register_name(r),
            Instruction::XorImmediate(v) => hex8(v),
            Instruction::Or(r) => register_name(r),
            Instruction::OrImmediate(v) => hex8(v),
            Instruction::Compare(r) => register_name(r),
            Instruction::CompareImmediate(v) => hex8(v),
            Instruction::Jump(a) => hex16(a),
            Instruction::ConditionalJump(_, a) => hex16(a),
            Instruction::Call(a) => hex16(a),
            Instruction::ConditionalCall(_, a) => hex16(a),
            Instruction::Restart(n) => hex8(n),
            Instruction::PushRegPair(rp) => pair_name(rp),
            Instruction::PushPSW => seq!['P', 'S', 'W'],
            Instruction::PopRegPair(rp) => pair_name(rp),
            Instruction::PopPSW => seq!['P', 'S', 'W'],
            Instruction::Input(p) => hex8(p),
            Instruction::Output(p) => hex8(p),
            _ => seq![],
        }
    }

    /// The mnemonic, then a space and the operands if there are any.
    pub open spec fn text(self) -> Seq<char> {
        if self.operands().len() == 0 {
            self.mnemonic()
        } else {
            self.mnemonic() + seq![' '] + self.operands()
        }
    }

    fn mnemonic_text(&self) -> (r: Vec<char>)
        ensures
            r@ == self.mnemonic(),
    {
        match self {
            Instruction::Move(_, _) => vec!['M', 'O', 'V'],
            Instruction::MoveImmediate(_, _) => vec!['M', 'V', 'I'],
            Instruction::LoadRegisterPairImmediate(_, _) => vec!['L', 'X', 'I'],
            Instruction::LoadAccumDirect(_) => vec!['L', 'D', 'A'],
            Instruction::StoreAccumDirect(_) => vec!['S', 'T', 'A'],
            Instruction::LoadHLDirect(_) => vec!['L', 'H', 'L', 'D'],
            Instruction::StoreHLDirect(_) => vec!['S', 'H', 'L', 'D'],
            Instruction::LoadAccumIndirect(_) => vec!['L', 'D', 'A', 'X'],
            Instruction::StoreAccumIndirect(_) => vec!['S', 'T', 'A', 'X'],
            Instruction::ExchangeHLWithDE => vec!['X', 'C', 'H', 'G'],
            Instruction::Add(_) => vec!['A', 'D', 'D'],
            Instruction::AddImmediate(_) => vec!['A', 'D', 'I'],
            Instruction::AddWithCarry(_) => vec!['A', 'D', 'C'],
            Instruction::AddImmediateWithCarry(_) => vec!['A', 'C', 'I'],
            Instruction::Subtract(_) => vec!['S', 'U', 'B'],
            Instruction::SubtractImmediate(_) => vec!['S', 'U', 'I'],
            Instruction::SubtractWithBorrow(_) => vec!['S', 'B', 'B'],
            Instruction::SubtractImmediateWithBorrow(_) => vec!['S', 'B', 'I'],
            Instruction::Increment(_) => vec!['I', 'N', 'R'],
            Instruction::Decrement(_) => vec!['D', 'C', 'R'],
            Instruction::IncrementRegPair(_) => vec!['I', 'N', 'X'],
            Instruction::DecrementRegPair(_) => vec!['D', 'C', 'X'],
            Instruction::AddRegPairToHL(_) => vec!['D', 'A', 'D'],
            Instruction::DecimalAdjustAccum => vec!['D', 'A', 'A'],
            Instruction::And(_) => vec!['A', 'N', 'A'],
            Instruction::AndImmediate(_) => vec!['A', 'N', 'I'],
            Instruction::Xor(_) => vec!['X', 'R', 'A'],
            Instruction::XorImmediate(_) => vec!['X', 'R', 'I'],
            Instruction::Or(_) => vec!['O', 'R', 'A'],
            Instruction::OrImmediate(_) => vec!['O', 'R', 'I'],
            Instruction::Compare(_) => vec!['C', 'M', 'P'],
            Instruction::CompareImmediate(_) => vec!['C', 'P', 'I'],
            Instruction::RotateLeft => vec!['R', 'L', 'C'],
            Instruction::RotateRight => vec!['R', 'R', 'C'],
            Instruction::RotateLeftThroughCarry => vec!['R', 'A', 'L'],
            Instruction::RotateRightThroughCarry => vec!['R', 'A', 'R'],
            Instruction::ComplementAccum => vec!['C', 'M', 'A'],
            Instruction::ComplementCarry => vec!['C', 'M', 'C'],
            Instruction::SetCarry => vec!['S', 'T', 'C'],
            Instruction::Jump(_) => vec!['J', 'M', 'P'],
            Instruction::ConditionalJump(c, _) => {
                let mut text = vec!['J'];
                text.append(&mut condition_text(c));
                text
            },
            Instruction::Call(_) => vec!['C', 'A', 'L', 'L'],
            Instruction::ConditionalCall(c, _) => {
                let mut text = vec!['C'];
                text.append(&mut condition_text(c));
                text
            },
            Instruction::Return => vec!['R', 'E', 'T'],
            Instruction::ConditionalReturn(c) => {
                let mut text = vec!['R'];
                text.append(&mut condition_text(c));
                text
            },
            Instruction::Restart(_) => vec!['R', 'S', 'T'],
            Instruction::JumpHLIndirect => vec!['P', 'C', 'H', 'L'],
            Instruction::PushRegPair(_) => vec!['P', 'U', 'S', 'H'],
            Instruction::PushPSW => vec!['P', 'U', 'S', 'H'],
            Instruction::PopRegPair(_) => vec!['P', 'O', 'P'],
            Instruction::PopPSW => vec!['P', 'O', 'P'],
            Instruction::ExchangeStackTopWithHL => vec!['X', 'T', 'H', 'L'],
            Instruction::MoveHLToSP => vec!['S', 'P', 'H', 'L'],
            Instruction::Input(_) => vec!['I', 'N'],
            Instruction::Output(_) => vec!['O', 'U', 'T'],
            Instruction::EnableInterrupts => vec!['E', 'I'],
            Instruction::DisableInterrupts => vec!['D', 'I'],
            Instruction::Halt => vec!['H', 'L', 'T'],
            Instruction::NoOp => vec!['N', 'O', 'P'],
        }
    }

    fn operands_text(&self) -> (r: Vec<char>)
        ensures
            r@ == self.operands(),
    {
        match self {
            Instruction::Move(s, d) => {
                let mut text = register_text(d);
                text.push(',');
                text.push(' ');
                text.append(&mut register_text(s));
                text
            },
            Instruction::MoveImmediate(r, v) => {
                let mut text = register_text(r);
                text.push(',');
                text.push(' ');
                text.append(&mut hex8_text(*v));
                text
            },
            Instruction::LoadRegisterPairImmediate(rp, v) => {
                let mut text = pair_text(rp);
                text.push(',');
                text.push(' ');
                text.append(&mut hex16_text(*v));
                text
            },
            Instruction::LoadAccumDirect(a) => hex16_text(*a),
            Instruction::StoreAccumDirect(a) => hex16_text(*a),
            Instruction::LoadHLDirect(a) => hex16_text(*a),
            Instruction::StoreHLDirect(a) => hex16_text(*a),
            Instruction::LoadAccumIndirect(rp) => pair_text(rp),
            Instruction::StoreAccumIndirect(rp) => pair_text(rp),
            Instruction::Add(r) => register_text(r),
            Instruction::AddImmediate(v) => hex8_text(*v),
            Instruction::AddWithCarry(r) => register_text(r),
            Instruction::AddImmediateWithCarry(v) => hex8_text(*v),
            Instruction::Subtract(r) => register_text(r),
            Instruction::SubtractImmediate(v) => hex8_text(*v),
            Instruction::SubtractWithBorrow(r) => register_text(r),
            Instruction::SubtractImmediateWithBorrow(v) => hex8_text(*v),
            Instruction::Increment(r) => register_text(r),
            Instruction::Decrement(r) => register_text(r),
            Instruction::IncrementRegPair(rp) => pair_text(rp),
            Instruction::DecrementRegPair(rp) => pair_text(rp),
            Instruction::AddRegPairToHL(rp) => pair_text(rp),
            Instruction::And(r) => register_text(r),
            Instruction::AndImmediate(v) => hex8_text(*v),
            Instruction::Xor(r) => register_text(r),
            Instruction::XorImmediate(v) => hex8_text(*v),
            Instruction::Or(r) => register_text(r),
            Instruction::OrImmediate(v) => hex8_text(*v),
            Instruction::Compare(r) => register_text(r),
            Instruction::CompareImmediate(v) => hex8_text(*v),
            Instruction::Jump(a) => hex16_text(*a),
            Instruction::ConditionalJump(_, a) => hex16_text(*a),
            Instruction::Call(a) => hex16_text(*a),
            Instruction::ConditionalCall(_, a) => hex16_text(*a),
            Instruction::Restart(n) => hex8_text(*n),
            Instruction::PushRegPair(rp) => pair_text(rp),
            Instruction::PushPSW => vec!['P', 'S', 'W'],
            Instruction::PopRegPair(rp) => pair_text(rp),
            Instruction::PopPSW => vec!['P', 'S', 'W'],
            Instruction::Input(p) => hex8_text(*p),
            Instruction::Output(p) => hex8_text(*p),
            _ => Vec::new(),
        }
    }

    /// The assembly-language text of the instruction.
    pub fn to_text(&self) -> (r: String)
        ensures
            r@ == self.text(),
    {
        let mut text = self.mnemonic_text();
        let mut operands = self.operands_text();
        if operands.len() > 0 {
            text.push(' ');
            text.append(&mut operands);
        }
        string_from_chars(&text)
    }
}

fn hex_digit(d: u8) -> (r: char)
    requires
        d < 16,
    ensures
        r == hex_digits()[d as int],
{
    match d {
        0 => '0',
        1 => '1',
        2 => '2',
        3 => '3',
        4 => '4',
        5 => '5',
        6 => '6',
        7 => '7',
        8 => '8',
        9 => '9',
        10 => 'A',
        11 => 'B',
        12 => 'C',
        13 => 'D',
        14 => 'E',
        _ => 'F',
    }
}

fn hex8_text(v: u8) -> (r: Vec<char>)
    ensures
        r@ == hex8(v),
{
    vec!['0', 'x', hex_digit(v / 16), hex_digit(v % 16)]
}

fn hex16_text(v: u16) -> (r: Vec<char>)
    ensures
        r@ == hex16(v),
{
    vec![
        '0',
        'x',
        hex_digit((v / 4096) as u8),
        hex_digit(((v / 256) % 16) as u8),
        hex_digit(((v / 16) % 16) as u8),
        hex_digit((v % 16) as u8),
    ]
}

fn register_text(r: &Register) -> (t: Vec<char>)
    ensures
        t@ == register_name(*r),
{
    match r {
        Register::A => vec!['A'],
        Register::B => vec!['B'],
        Register::C => vec!['C'],
        Register::D => vec!['D'],
        Register::E => vec!['E'],
        Register::H => vec!['H'],
        Register::L => vec!['L'],
        Register::Memory => vec!['M'],
    }
}

fn pair_text(rp: &RegisterPair) -> (t: Vec<char>)
    ensures
        t@ == pair_name(*rp),
{
    match rp {
        RegisterPair::BC => vec!['B', 'C'],
        RegisterPair::DE => vec!['D', 'E'],
        RegisterPair::HL => vec!['H', 'L'],
        RegisterPair::SP => vec!['S', 'P'],
    }
}

fn condition_text(c: &Condition) -> (t: Vec<char>)
    ensures
        t@ == condition_name(*c),
{
    match c {
        Condition::NotZero => vec!['N', 'Z'],
        Condition::Zero => vec!['Z'],
        Condition::NoCarry => vec!['N', 'C'],
        Condition::Carry => vec!['C'],
        Condition::OddParity => vec!['P', 'O'],
        Condition::EvenParity => vec!['P', 'E'],
        Condition::Plus => vec!['P'],
        Condition::Minus => vec!['M'],
    }
}

/// Relies on `String: FromIterator<char>`: the string of those characters, in order.
#[verifier::external_body]
fn string_from_chars(chars: &Vec<char>) -> (r: String)
    ensures
        r@ == chars@,
{
    chars.iter().collect()
}

} // verus!
