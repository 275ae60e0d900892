use emulator_8080::instructions::{Condition, Instruction as I, Register, RegisterPair};

#[test]
fn text_of_instructions() {
    assert_eq!(I::Move(Register::B, Register::A).to_text(), "MOV A, B");
    assert_eq!(I::MoveImmediate(Register::H, 0xFF).to_text(), "MVI H, 0xFF");
    assert_eq!(I::LoadRegisterPairImmediate(RegisterPair::SP, 0x2400).to_text(), "LXI SP, 0x2400");
    assert_eq!(I::Call(0x18D4).to_text(), "CALL 0x18D4");
    assert_eq!(I::Restart(7).to_text(), "RST 0x07");
    assert_eq!(I::ConditionalJump(Condition::NotZero, 0x0A0B).to_text(), "JNZ 0x0A0B");
    assert_eq!(I::ConditionalCall(Condition::Carry, 0x0000).to_text(), "CC 0x0000");
    assert_eq!(I::ConditionalReturn(Condition::EvenParity).to_text(), "RPE");
    assert_eq!(I::PushPSW.to_text(), "PUSH PSW");
    assert_eq!(I::PopRegPair(RegisterPair::DE).to_text(), "POP DE");
    assert_eq!(I::Add(Register::Memory).to_text(), "ADD M");
    assert_eq!(I::Output(0x02).to_text(), "OUT 0x02");
    assert_eq!(I::NoOp.to_text(), "NOP");
    assert_eq!(I::ExchangeHLWithDE.to_text(), "XCHG");
}
