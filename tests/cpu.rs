use gbemu::cpu::{CpuError, Flags, Operand, Register, CPU};
use gbemu::instructions::Instructions;
use gbemu::memory::{AddressError, Memory};

/// A CPU whose ROM holds `program` from 0x100 on.
fn cpu_with(program: &[u8]) -> CPU {
    let mut rom = vec![0u8; 0x8000];
    for (i, b) in program.iter().enumerate() {
        rom[0x100 + i] = *b;
    }
    CPU::new(Memory::new(rom))
}

fn registers(cpu: &CPU) -> Vec<i16> {
    [Register::A, Register::B, Register::C, Register::D, Register::E, Register::H, Register::L]
        .iter()
        .map(|r| r.read(cpu))
        .collect()
}

fn flags(cpu: &CPU) -> (bool, bool) {
    (Flags::Z.get(cpu), Flags::C.get(cpu))
}

#[test]
fn new_is_post_boot_state() {
    let cpu = cpu_with(&[]);
    assert_eq!(cpu.pc(), 0x100);
    assert_eq!(registers(&cpu), vec![0x01, 0x00, 0x13, 0x00, 0xD8u8 as i8 as i16, 0x01, 0x4D]);
    assert_eq!(flags(&cpu), (false, false));
    assert_eq!(Register::BC.read(&cpu), 0x0013);
    assert_eq!(Register::DE.read(&cpu), 0x00D8);
    assert_eq!(Register::HL.read(&cpu), 0x014D);
}

#[test]
fn pair_round_trip() {
    let mut cpu = cpu_with(&[]);
    for pair in [Register::BC, Register::DE, Register::HL] {
        for v in [0i16, 1, 0x1234, -1, i16::MIN, i16::MAX, 0x00FF, 0x7F80] {
            pair.write(&mut cpu, v);
            assert_eq!(pair.read(&cpu), v);
        }
    }
}

#[test]
fn pair_write_splits_high_and_low() {
    let mut cpu = cpu_with(&[]);
    Register::BC.write(&mut cpu, 0x12F4);
    assert_eq!(Register::B.read(&cpu), 0x12);
    assert_eq!(Register::C.read(&cpu), 0xF4u8 as i8 as i16);
    assert_eq!(Register::A.read(&cpu), 0x01);
    assert_eq!(Register::DE.read(&cpu), 0x00D8);
}

#[test]
fn byte_write_touches_one_register() {
    let mut cpu = cpu_with(&[]);
    Register::H.write(&mut cpu, 0x1277);
    assert_eq!(Register::H.read(&cpu), 0x77);
    assert_eq!(Register::HL.read(&cpu), 0x774D);
    assert_eq!(Register::L.read(&cpu), 0x4D);
    assert_eq!(Register::A.read(&cpu), 0x01);
}

#[test]
fn byte_register_reads_sign_extended() {
    let mut cpu = cpu_with(&[]);
    Register::A.write(&mut cpu, 0x80);
    assert_eq!(Register::A.read(&cpu), -128);
}

#[test]
fn always_flag_cannot_be_set() {
    let mut cpu = cpu_with(&[]);
    assert_eq!(Flags::Always.set(&mut cpu, false), Err(CpuError::InvalidFlagMutation));
    assert!(Flags::Always.get(&cpu));
    assert_eq!(Flags::C.set(&mut cpu, true), Ok(()));
    assert!(Flags::C.get(&cpu));
}

#[test]
fn operand_values() {
    let mut cpu = cpu_with(&[0x34, 0x12, 0xFE]);
    assert_eq!(Operand::AddressU8(0x100).get(&cpu), Ok(0x34));
    assert_eq!(Operand::AddressU16(0x100).get(&cpu), Ok(0x1234));
    assert_eq!(Operand::Flag(Flags::Z).get(&cpu), Ok(0));
    assert_eq!(Operand::NotFlag(Flags::Z).get(&cpu), Ok(1));
    assert_eq!(Operand::Flag(Flags::Always).get(&cpu), Ok(1));
    assert_eq!(Operand::Move(0x102).get(&cpu), Ok(0x0FE));
    Register::HL.write(&mut cpu, 0x0101);
    assert_eq!(Operand::RegisterAddressU8(Register::HL).get(&cpu), Ok(0x12));
    assert_eq!(Operand::RegisterAddressU16(Register::HL).get(&cpu), Ok(0xFE12u16 as i16));
    Register::HL.write(&mut cpu, 0);
    assert_eq!(
        Operand::RegisterAddressU8(Register::HL).get(&cpu),
        Err(CpuError::Address(AddressError::Zero))
    );
}

#[test]
fn operand_writes() {
    let mut cpu = cpu_with(&[]);
    Register::DE.write(&mut cpu, 0xC020u16 as i16);
    assert_eq!(Operand::RegisterAddressU16(Register::DE).set(&mut cpu, 0x0BCD), Ok(()));
    assert_eq!(cpu.memory().get_word(0xC020), Ok(0x0BCD));
    assert_eq!(Operand::AddressU8(0xC030).set(&mut cpu, 0x1281), Ok(()));
    assert_eq!(cpu.memory().get_byte(0xC030), Ok(0x81u8 as i8));
    assert_eq!(Operand::NotFlag(Flags::Z).set(&mut cpu, 5), Ok(()));
    assert!(Flags::Z.get(&cpu));
    assert_eq!(Operand::Move(0x100).set(&mut cpu, 1), Err(CpuError::UnwritableOperand));
    assert_eq!(
        Operand::Flag(Flags::Always).set(&mut cpu, 1),
        Err(CpuError::InvalidFlagMutation)
    );
}

#[test]
fn decode_sizes() {
    assert!(matches!(Instructions::decode(0x00, 0x100), (Instructions::Nop, 1)));
    assert!(matches!(
        Instructions::decode(0x01, 0x100),
        (Instructions::Load { op1: Operand::Register(Register::BC), op2: Operand::AddressU16(0x101) }, 3)
    ));
    assert!(matches!(
        Instructions::decode(0x06, 0x200),
        (Instructions::Load { op1: Operand::Register(Register::B), op2: Operand::AddressU8(0x201) }, 2)
    ));
    assert!(matches!(
        Instructions::decode(0x20, 0x100),
        (Instructions::Jp { cod: Operand::NotFlag(Flags::Z), op: Operand::Move(0x101) }, 2)
    ));
    assert!(matches!(
        Instructions::decode(0xC3, 0x100),
        (Instructions::Jp { cod: Operand::Flag(Flags::Always), op: Operand::AddressU16(0x101) }, 3)
    ));
    assert!(matches!(Instructions::decode(0xF3, 0x100), (Instructions::Di, 1)));
}

#[test]
fn decode_nop() {
    let (instr, size) = Instructions::decode(0x00, 0x1234);
    assert!(matches!(instr, Instructions::Nop));
    assert_eq!(size, 1);
}

#[test]
fn decode_stacked_store() {
    let (instr, size) = Instructions::decode(0x32, 0x100);
    assert_eq!(size, 1);
    match instr {
        Instructions::Stacked { stack } => {
            assert_eq!(stack.len(), 2);
            assert!(matches!(
                stack[0],
                Instructions::Load {
                    op1: Operand::RegisterAddressU8(Register::HL),
                    op2: Operand::Register(Register::A)
                }
            ));
            assert!(matches!(stack[1], Instructions::Dec { op: Operand::Register(Register::HL) }));
        }
        _ => panic!("expected a compound instruction"),
    }
}

#[test]
fn decode_unknown_opcode() {
    assert!(matches!(
        Instructions::decode(0xFF, 0x0150),
        (Instructions::Undefined { opcode: 0xFF, address: 0x0150 }, 1)
    ));
}

#[test]
fn decode_last_address_wraps() {
    assert!(matches!(
        Instructions::decode(0x3E, 0xFFFF),
        (Instructions::Load { op1: Operand::Register(Register::A), op2: Operand::AddressU8(0) }, 2)
    ));
}

#[test]
fn step_nop_changes_only_pc() {
    let mut cpu = cpu_with(&[0x00]);
    let before = registers(&cpu);
    assert_eq!(cpu.step(), Ok(()));
    assert_eq!(cpu.pc(), 0x101);
    assert_eq!(registers(&cpu), before);
    assert_eq!(flags(&cpu), (false, false));
}

#[test]
fn step_absolute_jump() {
    let mut cpu = cpu_with(&[0xC3, 0x34, 0x12]);
    assert_eq!(cpu.step(), Ok(()));
    assert_eq!(cpu.pc(), 0x1234);
}

#[test]
fn always_jump_ignores_flags() {
    let mut cpu = cpu_with(&[0xC3, 0x00, 0x02]);
    Flags::Z.set(&mut cpu, true).unwrap();
    Flags::C.set(&mut cpu, true).unwrap();
    assert_eq!(cpu.step(), Ok(()));
    assert_eq!(cpu.pc(), 0x0200);
    let jp = Instructions::Jp { cod: Operand::Flag(Flags::Always), op: Operand::AddressU16(0x101) };
    Flags::Z.set(&mut cpu, false).unwrap();
    assert_eq!(jp.execute(&mut cpu), Ok(()));
    assert_eq!(cpu.pc(), 0x0200);
}

#[test]
fn step_xor_a_clears_a() {
    for a in [0x01i16, 0x7F, -1, -128, 0] {
        let mut cpu = cpu_with(&[0xAF]);
        Register::A.write(&mut cpu, a);
        assert_eq!(cpu.step(), Ok(()));
        assert_eq!(Register::A.read(&cpu), 0);
        assert_eq!(cpu.pc(), 0x101);
    }
}

#[test]
fn step_unknown_opcode_reports_it() {
    let mut cpu = cpu_with(&[0x00, 0xFF]);
    assert_eq!(cpu.step(), Ok(()));
    assert_eq!(cpu.step(), Err(CpuError::UnimplementedOpcode { opcode: 0xFF, address: 0x101 }));
}

#[test]
fn step_from_unmapped_pc() {
    let mut cpu = cpu_with(&[]);
    cpu.jump(0x9000);
    assert_eq!(cpu.step(), Err(CpuError::Address(AddressError::Unmapped)));
    assert_eq!(cpu.pc(), 0x9000);
}

#[test]
fn decrement_sets_zero_flag() {
    let mut cpu = cpu_with(&[0x05, 0x05, 0x05]);
    Register::B.write(&mut cpu, 2);
    assert_eq!(cpu.step(), Ok(()));
    assert_eq!((Register::B.read(&cpu), Flags::Z.get(&cpu)), (1, false));
    assert_eq!(cpu.step(), Ok(()));
    assert_eq!((Register::B.read(&cpu), Flags::Z.get(&cpu)), (0, true));
    assert_eq!(cpu.step(), Ok(()));
    assert_eq!((Register::B.read(&cpu), Flags::Z.get(&cpu)), (-1, false));
}

#[test]
fn decrement_byte_wraps_from_min() {
    let mut cpu = cpu_with(&[0x0D]);
    Register::C.write(&mut cpu, -128);
    Flags::Z.set(&mut cpu, true).unwrap();
    assert_eq!(cpu.step(), Ok(()));
    assert_eq!(Register::C.read(&cpu), 127);
    assert!(!Flags::Z.get(&cpu));
    assert!(!Flags::C.get(&cpu));
}

#[test]
fn decrement_pair_sets_zero_flag() {
    let mut cpu = cpu_with(&[0x0B, 0x0B]);
    Register::BC.write(&mut cpu, 1);
    assert_eq!(cpu.step(), Ok(()));
    assert_eq!(Register::BC.read(&cpu), 0);
    assert!(Flags::Z.get(&cpu));
    assert_eq!(cpu.step(), Ok(()));
    assert_eq!(Register::BC.read(&cpu), -1);
    assert!(!Flags::Z.get(&cpu));
}

#[test]
fn relative_jump_when_not_zero() {
    let mut cpu = cpu_with(&[0x20, 0x05]);
    assert_eq!(cpu.step(), Ok(()));
    assert_eq!(cpu.pc(), 0x107);
}

#[test]
fn relative_jump_backwards() {
    let mut cpu = cpu_with(&[0x20, 0xFE]);
    assert_eq!(cpu.step(), Ok(()));
    assert_eq!(cpu.pc(), 0x100);
}

#[test]
fn relative_jump_not_taken_on_zero() {
    let mut cpu = cpu_with(&[0x20, 0x05]);
    Flags::Z.set(&mut cpu, true).unwrap();
    assert_eq!(cpu.step(), Ok(()));
    assert_eq!(cpu.pc(), 0x102);
}

#[test]
fn load_immediates() {
    let mut cpu = cpu_with(&[0x3E, 0x7F, 0x01, 0x34, 0x12, 0x06, 0x80, 0x21, 0x10, 0xC0]);
    assert_eq!(cpu.step(), Ok(()));
    assert_eq!((Register::A.read(&cpu), cpu.pc()), (0x7F, 0x102));
    assert_eq!(cpu.step(), Ok(()));
    assert_eq!((Register::BC.read(&cpu), cpu.pc()), (0x1234, 0x105));
    assert_eq!(cpu.step(), Ok(()));
    assert_eq!((Register::B.read(&cpu), cpu.pc()), (-128, 0x107));
    assert_eq!(cpu.step(), Ok(()));
    assert_eq!((Register::HL.read(&cpu), cpu.pc()), (0xC010u16 as i16, 0x10A));
}

#[test]
fn load_register_to_register() {
    let mut cpu = cpu_with(&[0x57, 0x48, 0x6C]);
    assert_eq!(cpu.step(), Ok(()));
    assert_eq!(Register::D.read(&cpu), 0x01);
    assert_eq!(cpu.step(), Ok(()));
    assert_eq!(Register::C.read(&cpu), 0x00);
    assert_eq!(cpu.step(), Ok(()));
    assert_eq!(Register::L.read(&cpu), 0x01);
}

#[test]
fn load_through_hl() {
    let mut cpu = cpu_with(&[0x56]);
    Register::HL.write(&mut cpu, 0xC005u16 as i16);
    Operand::AddressU8(0xC005).set(&mut cpu, 0x66).unwrap();
    assert_eq!(cpu.step(), Ok(()));
    assert_eq!(Register::D.read(&cpu), 0x66);
}

#[test]
fn store_and_decrement_hl() {
    let mut cpu = cpu_with(&[0x32]);
    Register::HL.write(&mut cpu, 0xC010u16 as i16);
    Register::A.write(&mut cpu, 0x42);
    assert_eq!(cpu.step(), Ok(()));
    assert_eq!(cpu.memory().get_byte(0xC010), Ok(0x42));
    assert_eq!(Register::HL.read(&cpu), 0xC00Fu16 as i16);
    assert!(!Flags::Z.get(&cpu));
}

#[test]
fn store_through_invalid_hl_fails() {
    let mut cpu = cpu_with(&[0x32]);
    Register::HL.write(&mut cpu, 0);
    assert_eq!(cpu.step(), Err(CpuError::Address(AddressError::Zero)));
    assert_eq!(Register::HL.read(&cpu), 0);
}

#[test]
fn add_pairs() {
    let mut cpu = cpu_with(&[0x19, 0x29]);
    assert_eq!(cpu.step(), Ok(()));
    assert_eq!(Register::HL.read(&cpu), 0x0225);
    assert_eq!(cpu.step(), Ok(()));
    assert_eq!(Register::HL.read(&cpu), 0x044A);
}

#[test]
fn add_wraps_at_sixteen_bits() {
    let mut cpu = cpu_with(&[0x19]);
    Register::HL.write(&mut cpu, 0x7FFF);
    Register::DE.write(&mut cpu, 1);
    assert_eq!(cpu.step(), Ok(()));
    assert_eq!(Register::HL.read(&cpu), i16::MIN);
}

#[test]
fn increment_and_shift() {
    let mut cpu = cpu_with(&[0x03, 0x2C, 0x22]);
    Register::D.write(&mut cpu, 0x41);
    assert_eq!(cpu.step(), Ok(()));
    assert_eq!(Register::BC.read(&cpu), 0x0014);
    assert_eq!(cpu.step(), Ok(()));
    assert_eq!(Register::L.read(&cpu), 0x4E);
    assert_eq!(cpu.step(), Ok(()));
    assert_eq!(Register::D.read(&cpu), 0x82u8 as i8 as i16);
}

#[test]
fn complement_a() {
    let mut cpu = cpu_with(&[0x2F, 0xF3]);
    assert_eq!(cpu.step(), Ok(()));
    assert_eq!(Register::A.read(&cpu), 0xFEu8 as i8 as i16);
    assert_eq!(cpu.step(), Ok(()));
    assert_eq!(cpu.pc(), 0x102);
}

#[test]
fn execute_undefined_keeps_state() {
    let mut cpu = cpu_with(&[]);
    let undefined = Instructions::Undefined { opcode: 0xDD, address: 0x0140 };
    assert_eq!(
        undefined.execute(&mut cpu),
        Err(CpuError::UnimplementedOpcode { opcode: 0xDD, address: 0x0140 })
    );
    assert_eq!(cpu.pc(), 0x100);
}

#[test]
fn decrement_memory_sets_zero_flag() {
    let mut cpu = cpu_with(&[]);
    Operand::AddressU8(0xC001).set(&mut cpu, 1).unwrap();
    let dec_byte = Instructions::Dec { op: Operand::AddressU8(0xC001) };
    assert_eq!(dec_byte.execute(&mut cpu), Ok(()));
    assert_eq!(cpu.memory().get_byte(0xC001), Ok(0));
    assert!(Flags::Z.get(&cpu));
    assert_eq!(dec_byte.execute(&mut cpu), Ok(()));
    assert_eq!(cpu.memory().get_byte(0xC001), Ok(-1));
    assert!(!Flags::Z.get(&cpu));
    let dec_word = Instructions::Dec { op: Operand::AddressU16(0xC001) };
    assert_eq!(dec_word.execute(&mut cpu), Ok(()));
    assert_eq!(cpu.memory().get_word(0xC001), Ok(0x00FE));
    assert!(!Flags::Z.get(&cpu));
}

#[test]
fn decrement_unmapped_memory_fails() {
    let mut cpu = cpu_with(&[]);
    let dec = Instructions::Dec { op: Operand::AddressU8(0x9000) };
    assert_eq!(dec.execute(&mut cpu), Err(CpuError::Address(AddressError::Unmapped)));
    assert!(!Flags::Z.get(&cpu));
}
