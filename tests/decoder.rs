use emulator_8080::decoder::{decode, decode_all};
use emulator_8080::instructions::{Condition, Instruction as I, Register, RegisterPair};
use emulator_8080::memory::InternalMemory;
use emulator_8080::program_counter::ProgramCounter;

#[test]
fn should_parse_all_instructions() {
    let mut memory = InternalMemory::new();
    let program: Vec<u8> = vec![
        0x00, 0x01, 0x55, 0x44, 0x02, 0x03, 0x04, 0x05, 0x06, 0x99, 0x07, 0x08, 0x09, 0x0A,
        0x0B, 0x0C, 0x0D, 0x0E, 0x98, 0x0F, 0x10, 0x11, 0x77, 0x66, 0x12, 0x13, 0x14, 0x15,
        0x16, 0x88, 0x17, 0x18,
    ];

    let program_length = program.len();

    memory.set_range(0x0000, program_length as u16, program);

    let mut program_counter = ProgramCounter::new();
    let mut instructions: Vec<I> = vec![];

    while (program_counter.0 as usize) < program_length {
        instructions.push(program_counter.get_next_instruction(&memory));
    }

    assert_eq!(
        instructions,
        vec![
            I::NoOp,
            I::LoadRegisterPairImmediate(RegisterPair::BC, 0x4455),
            I::StoreAccumIndirect(RegisterPair::BC),
            I::IncrementRegPair(RegisterPair::BC),
            I::Increment(Register::B),
            I::Decrement(Register::B),
            I::MoveImmediate(Register::B, 0x99),
            I::RotateLeft,
            I::NoOp,
            I::AddRegPairToHL(RegisterPair::BC),
            I::LoadAccumIndirect(RegisterPair::BC),
            I::DecrementRegPair(RegisterPair::BC),
            I::Increment(Register::C),
            I::Decrement(Register::C),
            I::MoveImmediate(Register::C, 0x98),
            I::RotateRight,
            I::NoOp,
            I::LoadRegisterPairImmediate(RegisterPair::DE, 0x6677),
            I::StoreAccumIndirect(RegisterPair::DE),
            I::IncrementRegPair(RegisterPair::DE),
            I::Increment(Register::D),
            I::Decrement(Register::D),
            I::MoveImmediate(Register::D, 0x88),
            I::RotateLeftThroughCarry,
            I::NoOp
        ]
    )
}

#[test]
fn should_parse_all_arithmetic_instructions() {
    let input: &[u8] = &[
        0b10000_000, 0b10000110, 0b11000110, 0xFE, 0b10001_001, 0b10001110, 0b11001110, 0x53,
        0b10010_010, 0b10010110, 0b11010110, 0x77, 0b10011_100, 0b10011110, 0b11011110, 0x4F,
        0b00_101_100, 0b00110100, 0b00_111_101, 0b00110101, 0b00_10_0011, 0b00_01_1011,
        0b00_00_1001, 0b00100111,
    ];

    let expected = vec![
        I::Add(Register::B),
        I::Add(Register::Memory),
        I::AddImmediate(0xFE),
        I::AddWithCarry(Register::C),
        I::AddWithCarry(Register::Memory),
        I::AddImmediateWithCarry(0x53),
        I::Subtract(Register::D),
        I::Subtract(Register::Memory),
        I::SubtractImmediate(0x77),
        I::SubtractWithBorrow(Register::H),
        I::SubtractWithBorrow(Register::Memory),
        I::SubtractImmediateWithBorrow(0x4F),
        I::Increment(Register::L),
        I::Increment(Register::Memory),
        I::Decrement(Register::A),
        I::Decrement(Register::Memory),
        I::IncrementRegPair(RegisterPair::HL),
        I::DecrementRegPair(RegisterPair::DE),
        I::AddRegPairToHL(RegisterPair::BC),
        I::DecimalAdjustAccum,
    ];

    assert_eq!(decode_all(input), expected);
}

#[test]
fn branch_should_parse_all_branch_instructions() {
    let input: &[u8] = &[
        0b11000011, 0xAB, 0xCD, 0b11_010_010, 0x12, 0x43, 0b11001101, 0x55, 0x44, 0b11_000_100,
        0x01, 0x99, 0b11001001, 0b11_110_000, 0b11_010_111, 0b11101001,
    ];

    let expected = vec![
        I::Jump(0xCDAB),
        I::ConditionalJump(Condition::NoCarry, 0x4312),
        I::Call(0x4455),
        I::ConditionalCall(Condition::NotZero, 0x9901),
        I::Return,
        I::ConditionalReturn(Condition::Plus),
        I::Restart(0b00000_010),
        I::JumpHLIndirect,
    ];

    assert_eq!(decode_all(input), expected);
}

#[test]
fn should_parse_all_data_transfer_instructions() {
    let input: &[u8] = &[
        0b01_010_001, 0b01_011_110, 0b01110_111, 0b00_000_110, 0xAB, 0b00110110, 0x1F,
        0b00_01_0001, 0xEE, 0x43, 0b00111010, 0x92, 0x75, 0b00110010, 0x88, 0xFE, 0b00101010,
        0x01, 0xFE, 0b00100010, 0x83, 0x34, 0b00_00_1010, 0b00_01_0010, 0b11101011,
    ];

    let expected = vec![
        I::Move(Register::C, Register::D),
        I::Move(Register::Memory, Register::E),
        I::Move(Register::A, Register::Memory),
        I::MoveImmediate(Register::B, 0xAB),
        I::MoveImmediate(Register::Memory, 0x1F),
        I::LoadRegisterPairImmediate(RegisterPair::DE, 0x43EE),
        I::LoadAccumDirect(0x7592),
        I::StoreAccumDirect(0xFE88),
        I::LoadHLDirect(0xFE01),
        I::StoreHLDirect(0x3483),
        I::LoadAccumIndirect(RegisterPair::BC),
        I::StoreAccumIndirect(RegisterPair::DE),
        I::ExchangeHLWithDE,
    ];

    assert_eq!(decode_all(input), expected);
}

#[test]
fn should_parse_all_logic_instructions() {
    let input: &[u8] = &[
        0b10100_000, 0b10100110, 0b11100110, 0x66, 0b10101_000, 0b10101110, 0b11101110, 0x78,
        0b10110_000, 0b10110110, 0b11110110, 0x98, 0b10111_000, 0b10111110, 0b11111110, 0xA1,
        0b00000111, 0b00001111, 0b00010111, 0b00011111, 0b00101111, 0b00111111, 0b00110111,
    ];

    let expected = vec![
        I::And(Register::B),
        I::And(Register::Memory),
        I::AndImmediate(0x66),
        I::Xor(Register::B),
        I::Xor(Register::Memory),
        I::XorImmediate(0x78),
        I::Or(Register::B),
        I::Or(Register::Memory),
        I::OrImmediate(0x98),
        I::Compare(Register::B),
        I::Compare(Register::Memory),
        I::CompareImmediate(0xA1),
        I::RotateLeft,
        I::RotateRight,
        I::RotateLeftThroughCarry,
        I::RotateRightThroughCarry,
        I::ComplementAccum,
        I::ComplementCarry,
        I::SetCarry,
    ];

    assert_eq!(decode_all(input), expected);
}

#[test]
fn machine_control_should_parse_all_branch_instructions() {
    let input: &[u8] = &[
        0b11_01_0101, 0b11110101, 0b11_00_0001, 0b11110001, 0b11100011, 0b11111001, 0b11011011,
        0xA8, 0b11010011, 0x05, 0b11111011, 0b11110011, 0b01110110, 0,
    ];

    let expected = vec![
        I::PushRegPair(RegisterPair::DE),
        I::PushPSW,
        I::PopRegPair(RegisterPair::BC),
        I::PopPSW,
        I::ExchangeStackTopWithHL,
        I::MoveHLToSP,
        I::Input(0xA8),
        I::Output(0x05),
        I::EnableInterrupts,
        I::DisableInterrupts,
        I::Halt,
        I::NoOp,
    ];

    assert_eq!(decode_all(input), expected);
}

#[test]
fn should_parse_register() {
    let input: Vec<u8> = vec![0b111, 0b000, 0b001, 0b010, 0b011, 0b100, 0b101]
        .into_iter()
        .map(|x| x << 5)
        .collect();

    let result: Vec<Register> = input.iter().map(|b| Register::from_code(b >> 5)).collect();

    assert_eq!(
        result,
        vec![
            Register::A,
            Register::B,
            Register::C,
            Register::D,
            Register::E,
            Register::H,
            Register::L
        ]
    )
}

#[test]
fn should_parse_register_pair() {
    let input: Vec<u8> = vec![0b00, 0b01, 0b10, 0b11].into_iter().map(|x| x << 6).collect();

    let result: Vec<RegisterPair> =
        input.iter().map(|b| RegisterPair::from_code(b >> 6)).collect();

    assert_eq!(
        result,
        vec![RegisterPair::BC, RegisterPair::DE, RegisterPair::HL, RegisterPair::SP]
    )
}

#[test]
fn should_parse_condition() {
    let input: Vec<u8> = vec![0b000, 0b001, 0b010, 0b011, 0b100, 0b101, 0b110, 0b111]
        .into_iter()
        .map(|x| x << 5)
        .collect();

    let result: Vec<Condition> = input.iter().map(|b| Condition::from_code(b >> 5)).collect();

    assert_eq!(
        result,
        vec![
            Condition::NotZero,
            Condition::Zero,
            Condition::NoCarry,
            Condition::Carry,
            Condition::OddParity,
            Condition::EvenParity,
            Condition::Plus,
            Condition::Minus
        ]
    )
}

#[test]
fn undocumented_opcodes_decode_as_their_aliases() {
    for op in [0x08u8, 0x10, 0x18, 0x20, 0x28, 0x30, 0x38] {
        assert_eq!(decode(op, 0x12, 0x34), I::NoOp);
    }
    assert_eq!(decode(0xCB, 0x34, 0x12), I::Jump(0x1234));
    assert_eq!(decode(0xD9, 0, 0), I::Return);
    for op in [0xDDu8, 0xED, 0xFD] {
        assert_eq!(decode(op, 0x00, 0x20), I::Call(0x2000));
    }
}

#[test]
fn every_byte_decodes_to_an_instruction_of_length_one_to_three() {
    for op in 0u8..=255 {
        let length = decode(op, 0, 0).length();
        assert!((1..=3).contains(&length));
    }
    assert_eq!(decode(0x76, 0, 0), I::Halt);
    assert_eq!(decode(0xFF, 0, 0), I::Restart(7));
    assert_eq!(decode(0x7E, 0, 0), I::Move(Register::Memory, Register::A));
}

#[test]
fn decode_all_stops_before_a_truncated_instruction() {
    assert_eq!(decode_all(&[0x00, 0xC3, 0x00]), vec![I::NoOp]);
    assert_eq!(decode_all(&[]), vec![]);
}

#[test]
fn fetch_wraps_at_the_top_of_memory() {
    let mut memory = InternalMemory::new();
    memory.set(0xFFFF, 0xC3);
    memory.set(0x0000, 0x34);
    memory.set(0x0001, 0x12);
    let mut program_counter = ProgramCounter(0xFFFF);
    assert_eq!(program_counter.get_next_instruction(&memory), I::Jump(0x1234));
    assert_eq!(program_counter.get(), 0x0002);
}
