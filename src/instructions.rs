use vstd::prelude::*;

use crate::cpu::{lemma_pair_round_trip, CpuError, CpuView, Flags, Operand, Register, CPU};
use crate::memory::{lemma_byte_write_read, lemma_word_write_read, AddressError};

verus! {

/// One decoded CPU operation, holding the operands it acts on.
#[derive(Debug)]
pub enum Instructions {
    /// An opcode without a table entry, with the address it was fetched from.
    Undefined { opcode: u8, address: u16 },
    Nop,
    Add { op1: Operand, op2: Operand },
    Xor { op1: Operand, op2: Operand },
    Load { op1: Operand, op2: Operand },
    /// Jump to the value of `op` when `cod` is nonzero.
    Jp { cod: Operand, op: Operand },
    Inc { op: Operand },
    Dec { op: Operand },
    Sla { op: Operand },
    /// Simple instructions run in order as one operation.
    Stacked { stack: Vec<Instructions> },
    /// Disable interrupts; interrupts are not modelled, so it does nothing.
    Di,
    /// Bitwise complement of register A.
    Cpl,
}

/// The address of the byte that follows the opcode at `pc`.
pub open spec fn operand_address(pc: u16) -> u16 {
    if pc == 0xFFFF {
        0
    } else {
        (pc + 1) as u16
    }
}

/// A register-to-register load.
pub open spec fn load_register(dst: Register, src: Register) -> Instructions {
    Instructions::Load { op1: Operand::Register(dst), op2: Operand::Register(src) }
}

/// The instructions an opcode at `pc` decodes to, in order: one for every
/// opcode but the compound store-and-decrement.
pub open spec fn decoded_parts(opcode: u8, pc: u16) -> Seq<Instructions> {
    let n = operand_address(pc);
    match opcode {
        0x00 => seq![Instructions::Nop],
        0x01 => seq![
            Instructions::Load { op1: Operand::Register(Register::BC), op2: Operand::AddressU16(n) },
        ],
        0x03 => seq![Instructions::Inc { op: Operand::Register(Register::BC) }],
        0x05 => seq![Instructions::Dec { op: Operand::Register(Register::B) }],
        0x06 => seq![
            Instructions::Load { op1: Operand::Register(Register::B), op2: Operand::AddressU8(n) },
        ],
        0x0B => seq![Instructions::Dec { op: Operand::Register(Register::BC) }],
        0x0D => seq![Instructions::Dec { op: Operand::Register(Register::C) }],
        0x0E => seq![
            Instructions::Load { op1: Operand::Register(Register::C), op2: Operand::AddressU8(n) },
        ],
        0x11 => seq![
            Instructions::Load { op1: Operand::Register(Register::DE), op2: Operand::AddressU16(n) },
        ],
        0x15 => seq![Instructions::Dec { op: Operand::Register(Register::D) }],
        0x19 => seq![
            Instructions::Add {
                op1: Operand::Register(Register::HL),
                op2: Operand::Register(Register::DE),
            },
        ],
        0x1D => seq![Instructions::Dec { op: Operand::Register(Register::E) }],
        0x20 => seq![Instructions::Jp { cod: Operand::NotFlag(Flags::Z), op: Operand::Move(n) }],
        0x21 => seq![
            Instructions::Load { op1: Operand::Register(Register::HL), op2: Operand::AddressU16(n) },
        ],
        0x22 => seq![Instructions::Sla { op: Operand::Register(Register::D) }],
        0x25 => seq![Instructions::Dec { op: Operand::Register(Register::H) }],
        0x29 => seq![
            Instructions::Add {
                op1: Operand::Register(Register::HL),
                op2: Operand::Register(Register::HL),
            },
        ],
        0x2C => seq![Instructions::Inc { op: Operand::Register(Register::L) }],
        0x2F => seq![Instructions::Cpl],
        0x32 => seq![
            Instructions::Load {
                op1: Operand::RegisterAddressU8(Register::HL),
                op2: Operand::Register(Register::A),
            },
            Instructions::Dec { op: Operand::Register(Register::HL) },
        ],
        0x3E => seq![
            Instructions::Load { op1: Operand::Register(Register::A), op2: Operand::AddressU8(n) },
        ],
        0x48 => seq![load_register(Register::C, Register::B)],
        0x49 => seq![load_register(Register::C, Register::C)],
        0x4A => seq![load_register(Register::C, Register::D)],
        0x4B => seq![load_register(Register::C, Register::E)],
        0x50 => seq![load_register(Register::D, Register::B)],
        0x51 => seq![load_register(Register::D, Register::C)],
        0x52 => seq![load_register(Register::D, Register::D)],
        0x53 => seq![load_register(Register::D, Register::E)],
        0x54 => seq![load_register(Register::D, Register::H)],
        0x55 => seq![load_register(Register::D, Register::L)],
        0x56 => seq![
            Instructions::Load {
                op1: Operand::Register(Register::D),
                op2: Operand::RegisterAddressU8(Register::HL),
            },
        ],
        0x57 => seq![load_register(Register::D, Register::A)],
        0x58 => seq![load_register(Register::E, Register::B)],
        0x59 => seq![load_register(Register::E, Register::C)],
        0x66 => seq![
            Instructions::Load {
                op1: Operand::Register(Register::H),
                op2: Operand::RegisterAddressU8(Register::HL),
            },
        ],
        0x6C => seq![load_register(Register::L, Register::H)],
        0x6E => seq![
            Instructions::Load {
                op1: Operand::Register(Register::L),
                op2: Operand::RegisterAddressU8(Register::HL),
            },
        ],
        0xAF => seq![
            Instructions::Xor { op1: Operand::Register(Register::A), op2: Operand::Register(Register::A) },
        ],
        0xC3 => seq![
            Instructions::Jp { cod: Operand::Flag(Flags::Always), op: Operand::AddressU16(n) },
        ],
        0xF3 => seq![Instructions::Di],
        _ => seq![Instructions::Undefined { opcode, address: pc }],
    }
}

/// The number of bytes an opcode's encoding takes, the opcode included.
pub open spec fn decoded_size(opcode: u8) -> u8 {
    match opcode {
        0x01 | 0x11 | 0x21 | 0xC3 => 3,
        0x06 | 0x0E | 0x20 | 0x3E => 2,
        _ => 1,
    }
}

/// Whether the opcode has a table entry.
pub open spec fn is_defined(opcode: u8) -> bool {
    !(decoded_parts(opcode, 0)[0] is Undefined)
}

/// Runs instructions in order from a state: the state reached and, if one
/// failed, its error, with the state as it stood before that one.
pub open spec fn run_seq(parts: Seq<Instructions>, s: CpuView) -> (CpuView, Result<(), CpuError>)
    decreases parts.len(),
{
    if parts.len() == 0 {
        (s, Ok(()))
    } else {
        match parts[0].effect(s) {
            Ok(next) => run_seq(parts.drop_first(), next),
            Err(e) => (s, Err(e)),
        }
    }
}

/// One step from a state: fetch the opcode at the program counter, decode
/// it, move the program counter past its encoding, then execute it.
pub open spec fn stepped(s: CpuView) -> (CpuView, Result<(), CpuError>) {
    match s.memory.byte(s.pc) {
        Err(e) => (s, Err(CpuError::Address(e))),
        Ok(op) => run_seq(
            decoded_parts(op as u8, s.pc),
            CpuView { pc: (s.pc + decoded_size(op as u8)) as u16, ..s },
        ),
    }
}

impl Instructions {
    /// A compound instruction holds only simple ones.
    pub open spec fn wf(self) -> bool {
        match self {
            Instructions::Stacked { stack } => forall|k: int|
                0 <= k < stack@.len() ==> !(#[trigger] stack@[k] is Stacked),
            _ => true,
        }
    }

    /// The simple instructions this one runs, in order.
    pub open spec fn parts(self) -> Seq<Instructions> {
        match self {
            Instructions::Stacked { stack } => stack@,
            _ => seq![self],
        }
    }

    /// The state after a simple instruction, or its error; a failing
    /// instruction changes nothing. A compound instruction is run through its
    /// parts (see `run`), never through this.
    #[verifier::opaque]
    pub open spec fn effect(self, s: CpuView) -> Result<CpuView, CpuError> {
        match self {
            Instructions::Undefined { opcode, address } => Err(
                CpuError::UnimplementedOpcode { opcode, address },
            ),
            Instructions::Nop | Instructions::Di | Instructions::Stacked { .. } => Ok(s),
            Instructions::Add { op1, op2 } => match op2.value(s) {
                Err(e) => Err(e),
                Ok(v2) => match op1.value(s) {
                    Err(e) => Err(e),
                    Ok(v1) => op1.assigned(s, (v1 + v2) as i16),
                },
            },
            Instructions::Xor { op1, op2 } => match op1.value(s) {
                Err(e) => Err(e),
                Ok(v1) => match op2.value(s) {
                    Err(e) => Err(e),
                    Ok(v2) => op1.assigned(s, v1 ^ v2),
                },
            },
            Instructions::Load { op1, op2 } => match op2.value(s) {
                Err(e) => Err(e),
                Ok(v2) => op1.assigned(s, v2),
            },
            Instructions::Jp { cod, op } => match cod.value(s) {
                Err(e) => Err(e),
                Ok(c) => if c != 0 {
                    match op.value(s) {
                        Err(e) => Err(e),
                        Ok(target) => Ok(CpuView { pc: target as u16, ..s }),
                    }
                } else {
                    Ok(s)
                },
            },
            Instructions::Inc { op } => match op.value(s) {
                Err(e) => Err(e),
                Ok(v) => op.assigned(s, (v + 1) as i16),
            },
            Instructions::Dec { op } => match op.value(s) {
                Err(e) => Err(e),
                Ok(v) => match op.assigned(s, (v - 1) as i16) {
                    Err(e) => Err(e),
                    Ok(next) => Ok(CpuView { fz: (v - 1) as i16 == 0, ..next }),
                },
            },
            Instructions::Sla { op } => match op.value(s) {
                Err(e) => Err(e),
                Ok(v) => op.assigned(s, (v * 2) as i16),
            },
            Instructions::Cpl => Ok(Register::A.assigned(s, !Register::A.value(s))),
        }
    }

    /// The state after the instruction and its error, if any.
    pub open spec fn run(self, s: CpuView) -> (CpuView, Result<(), CpuError>) {
        run_seq(self.parts(), s)
    }

    fn apply(&self, cpu: &mut CPU) -> (r: Result<(), CpuError>)
        requires
            old(cpu).wf(),
            !(*self is Stacked),
        ensures
            final(cpu).wf(),
            match self.effect(old(cpu)@) {
                Ok(s) => r is Ok && final(cpu)@ == s,
                Err(e) => r == Err::<(), CpuError>(e) && final(cpu)@ == old(cpu)@,
            },
    {
        reveal(Instructions::effect);
        match self {
            Instructions::Undefined { opcode, address } => Err(
                CpuError::UnimplementedOpcode { opcode: *opcode, address: *address },
            ),
            Instructions::Nop | Instructions::Di | Instructions::Stacked { .. } => Ok(()),
            Instructions::Add { op1, op2 } => {
                let v2 = op2.get(cpu)?;
                let v1 = op1.get(cpu)?;
                op1.set(cpu, (v1 as i32 + v2 as i32) as i16)
            },
            Instructions::Xor { op1, op2 } => {
                let v1 = op1.get(cpu)?;
                let v2 = op2.get(cpu)?;
                op1.set(cpu, v1 ^ v2)
            },
            Instructions::Load { op1, op2 } => {
                let v2 = op2.get(cpu)?;
                op1.set(cpu, v2)
            },
            Instructions::Jp { cod, op } => {
                if cod.get(cpu)? != 0 {
                    let target = op.get(cpu)?;
                    cpu.jump(target as u16);
                }
                Ok(())
            },
            Instructions::Inc { op } => {
                let v = op.get(cpu)?;
                op.set(cpu, (v as i32 + 1) as i16)
            },
            Instructions::Dec { op } => {
                let v = op.get(cpu)?;
                let result = (v as i32 - 1) as i16;
                op.set(cpu, result)?;
                Flags::Z.set(cpu, result == 0)
            },
            Instructions::Sla { op } => {
                let v = op.get(cpu)?;
                op.set(cpu, (v as i32 * 2) as i16)
            },
            Instructions::Cpl => {
                let v = Register::A.read(cpu);
                Register::A.write(cpu, !v);
                Ok(())
            },
        }
    }

    /// Applies the instruction to the CPU. A compound instruction stops at
    /// the first part that fails, keeping the effects of the parts before it.
    pub fn execute(&self, cpu: &mut CPU) -> (r: Result<(), CpuError>)
        requires
            old(cpu).wf(),
            self.wf(),
        ensures
            final(cpu).wf(),
            final(cpu)@ == self.run(old(cpu)@).0,
            match self.run(old(cpu)@).1 {
                Ok(_) => r is Ok,
                Err(e) => r == Err::<(), CpuError>(e),
            },
    {
        match self {
            Instructions::Stacked { stack } => {
                assert(self.parts() == stack@);
                Instructions::run_stack(stack, cpu)
            },
            _ => {
                let r = self.apply(cpu);
                proof {
                    let p = self.parts();
                    assert(p.drop_first() =~= Seq::<Instructions>::empty());
                    assert(run_seq(p.drop_first(), cpu@) == (cpu@, Ok::<(), CpuError>(())));
                }
                r
            },
        }
    }

    fn run_stack(stack: &Vec<Instructions>, cpu: &mut CPU) -> (r: Result<(), CpuError>)
        requires
            old(cpu).wf(),
            forall|k: int| 0 <= k < stack@.len() ==> !(#[trigger] stack@[k] is Stacked),
        ensures
            final(cpu).wf(),
            final(cpu)@ == run_seq(stack@, old(cpu)@).0,
            match run_seq(stack@, old(cpu)@).1 {
                Ok(_) => r is Ok,
                Err(e) => r == Err::<(), CpuError>(e),
            },
    {
        assert(stack@.skip(0) =~= stack@);
        let mut i: usize = 0;
        while i < stack.len()
            invariant
                cpu.wf(),
                forall|k: int| 0 <= k < stack@.len() ==> !(#[trigger] stack@[k] is Stacked),
                0 <= i <= stack.len(),
                run_seq(stack@.skip(i as int), cpu@) == run_seq(stack@, old(cpu)@),
            decreases stack.len() - i,
        {
            let ghost before = cpu@;
            let ghost rest = stack@.skip(i as int);
            assert(rest.len() > 0 && rest[0] == stack@[i as int]);
            assert(rest.drop_first() =~= stack@.skip(i + 1));
            match stack[i].apply(cpu) {
                Ok(()) => {},
                Err(e) => {
                    assert(rest[0].effect(before) == Err::<CpuView, CpuError>(e));
                    assert(run_seq(rest, before) == (before, Err::<(), CpuError>(e)));
                    return Err(e);
                },
            }
            i += 1;
        }
        assert(stack@.skip(i as int).len() == 0);
        Ok(())
    }

    /// Decodes the opcode fetched at `pc`: the instruction and the number of
    /// bytes its encoding takes. Trailing operands are captured as addresses
    /// and read when the instruction runs.
    pub fn decode(opcode: u8, pc: u16) -> (r: (Instructions, u8))
        ensures
            r.0.wf(),
            r.0.parts() == decoded_parts(opcode, pc),
            (r.0 is Stacked) == (decoded_parts(opcode, pc).len() != 1),
            r.1 == decoded_size(opcode),
    {
        let n: u16 = if pc == 0xFFFF {
            0
        } else {
            pc + 1
        };
        let mut size: u8 = 1;
        let instr = match opcode {
            0x00 => Instructions::Nop,
            0x01 => {
                size += 2;
                Instructions::Load {
                    op1: Operand::Register(Register::BC),
                    op2: Operand::AddressU16(n),
                }
            },
            0x03 => Instructions::Inc { op: Operand::Register(Register::BC) },
            0x05 => Instructions::Dec { op: Operand::Register(Register::B) },
            0x06 => {
                size += 1;
                Instructions::Load {
                    op1: Operand::Register(Register::B),
                    op2: Operand::AddressU8(n),
                }
            },
            0x0B => Instructions::Dec { op: Operand::Register(Register::BC) },
            0x0D => Instructions::Dec { op: Operand::Register(Register::C) },
            0x0E => {
                size += 1;
                Instructions::Load {
                    op1: Operand::Register(Register::C),
                    op2: Operand::AddressU8(n),
                }
            },
            0x11 => {
                size += 2;
                Instructions::Load {
                    op1: Operand::Register(Register::DE),
                    op2: Operand::AddressU16(n),
                }
            },
            0x15 => Instructions::Dec { op: Operand::Register(Register::D) },
            0x19 => Instructions::Add {
                op1: Operand::Register(Register::HL),
                op2: Operand::Register(Register::DE),
            },
            0x1D => Instructions::Dec { op: Operand::Register(Register::E) },
            0x20 => {
                size += 1;
                Instructions::Jp { cod: Operand::NotFlag(Flags::Z), op: Operand::Move(n) }
            },
            0x21 => {
                size += 2;
                Instructions::Load {
                    op1: Operand::Register(Register::HL),
                    op2: Operand::AddressU16(n),
                }
            },
            0x22 => Instructions::Sla { op: Operand::Register(Register::D) },
            0x25 => Instructions::Dec { op: Operand::Register(Register::H) },
            0x29 => Instructions::Add {
                op1: Operand::Register(Register::HL),
                op2: Operand::Register(Register::HL),
            },
            0x2C => Instructions::Inc { op: Operand::Register(Register::L) },
            0x2F => Instructions::Cpl,
            0x32 => {
                let mut stack: Vec<Instructions> = Vec::new();
                stack.push(
                    Instructions::Load {
                        op1: Operand::RegisterAddressU8(Register::HL),
                        op2: Operand::Register(Register::A),
                    },
                );
                stack.push(Instructions::Dec { op: Operand::Register(Register::HL) });
                Instructions::Stacked { stack }
            },
            0x3E => {
                size += 1;
                Instructions::Load {
                    op1: Operand::Register(Register::A),
                    op2: Operand::AddressU8(n),
                }
            },
            0x48 => Instructions::Load {
                op1: Operand::Register(Register::C),
                op2: Operand::Register(Register::B),
            },
            0x49 => Instructions::Load {
                op1: Operand::Register(Register::C),
                op2: Operand::Register(Register::C),
            },
            0x4A => Instructions::Load {
                op1: Operand::Register(Register::C),
                op2: Operand::Register(Register::D),
            },
            0x4B => Instructions::Load {
                op1: Operand::Register(Register::C),
                op2: Operand::Register(Register::E),
            },
            0x50 => Instructions::Load {
                op1: Operand::Register(Register::D),
                op2: Operand::Register(Register::B),
            },
            0x51 => Instructions::Load {
                op1: Operand::Register(Register::D),
                op2: Operand::Register(Register::C),
            },
            0x52 => Instructions::Load {
                op1: Operand::Register(Register::D),
                op2: Operand::Register(Register::D),
            },
            0x53 => Instructions::Load {
                op1: Operand::Register(Register::D),
                op2: Operand::Register(Register::E),
            },
            0x54 => Instructions::Load {
                op1: Operand::Register(Register::D),
                op2: Operand::Register(Register::H),
            },
            0x55 => Instructions::Load {
                op1: Operand::Register(Register::D),
                op2: Operand::Register(Register::L),
            },
            0x56 => Instructions::Load {
                op1: Operand::Register(Register::D),
                op2: Operand::RegisterAddressU8(Register::HL),
            },
            0x57 => Instructions::Load {
                op1: Operand::Register(Register::D),
                op2: Operand::Register(Register::A),
            },
            0x58 => Instructions::Load {
                op1: Operand::Register(Register::E),
                op2: Operand::Register(Register::B),
            },
            0x59 => Instructions::Load {
                op1: Operand::Register(Register::E),
                op2: Operand::Register(Register::C),
            },
            0x66 => Instructions::Load {
                op1: Operand::Register(Register::H),
                op2: Operand::RegisterAddressU8(Register::HL),
            },
            0x6C => Instructions::Load {
                op1: Operand::Register(Register::L),
                op2: Operand::Register(Register::H),
            },
            0x6E => Instructions::Load {
                op1: Operand::Register(Register::L),
                op2: Operand::RegisterAddressU8(Register::HL),
            },
            0xAF => Instructions::Xor {
                op1: Operand::Register(Register::A),
                op2: Operand::Register(Register::A),
            },
            0xC3 => {
                size += 2;
                Instructions::Jp { cod: Operand::Flag(Flags::Always), op: Operand::AddressU16(n) }
            },
            0xF3 => Instructions::Di,
            _ => Instructions::Undefined { opcode, address: pc },
        };
        proof {
            if opcode == 0x32 {
                assert(instr.parts() =~= decoded_parts(opcode, pc));
            }
        }
        (instr, size)
    }
}

/// A single instruction runs as its effect: the new state on success, the
/// unchanged state and the error on failure.
proof fn lemma_run_single(i: Instructions, s: CpuView)
    ensures
        run_seq(seq![i], s) == match i.effect(s) {
            Ok(next) => (next, Ok::<(), CpuError>(())),
            Err(e) => (s, Err(e)),
        },
{
    let one = seq![i];
    assert(one.drop_first() =~= Seq::<Instructions>::empty());
    match i.effect(s) {
        Ok(next) => assert(run_seq(one.drop_first(), next) == (next, Ok::<(), CpuError>(()))),
        Err(e) => {},
    }
}

/// The state a step starts executing from: the program counter moved past
/// the encoding of the opcode fetched.
pub open spec fn advanced(s: CpuView, opcode: u8) -> CpuView {
    CpuView { pc: (s.pc + decoded_size(opcode)) as u16, ..s }
}

/// Decrementing a register sets the zero flag exactly when the register
/// reads zero afterwards, for the 8-bit registers and the pairs alike.
pub proof fn lemma_decrement_zero_flag(s: CpuView, r: Register)
    ensures
        (Instructions::Dec { op: Operand::Register(r) }).effect(s) matches Ok(after) && after.fz
            == (r.value(after) == 0),
{
    reveal(Instructions::effect);
    let v = r.value(s);
    let res = (v - 1) as i16;
    if r.is_pair() {
        lemma_pair_round_trip(s, r, res);
    } else {
        let x: i8 = match r {
            Register::A => s.a,
            Register::B => s.b,
            Register::C => s.c,
            Register::D => s.d,
            Register::E => s.e,
            Register::H => s.h,
            _ => s.l,
        };
        assert(v == x as i16);
        assert((((x as i16) - 1) as i16 == 0) == (((((x as i16) - 1) as i16) as i8) as i16 == 0))
            by (bit_vector);
    }
}

/// Decrementing a byte or word in memory sets the zero flag exactly when
/// the operand reads zero afterwards.
pub proof fn lemma_decrement_memory_zero_flag(s: CpuView, op: Operand)
    requires
        s.wf(),
        op is AddressU8 || op is AddressU16 || op is RegisterAddressU8 || op is RegisterAddressU16,
    ensures
        (Instructions::Dec { op }).effect(s) matches Ok(after) ==> after.fz == (op.value(after)
            == Ok::<i16, CpuError>(0)),
{
    reveal(Instructions::effect);
    if let Ok(v) = op.value(s) {
        let res = (v - 1) as i16;
        match op {
            Operand::AddressU8(a) => {
                lemma_byte_write_read(s.memory, a, res as i8);
                let x: i8 = s.memory.byte(a)->Ok_0;
                assert((((x as i16) - 1) as i16 == 0) == (((((x as i16) - 1) as i16) as i8) as i16
                    == 0)) by (bit_vector);
            },
            Operand::RegisterAddressU8(r) => {
                let a = r.value(s) as u16;
                lemma_byte_write_read(s.memory, a, res as i8);
                let x: i8 = s.memory.byte(a)->Ok_0;
                assert((((x as i16) - 1) as i16 == 0) == (((((x as i16) - 1) as i16) as i8) as i16
                    == 0)) by (bit_vector);
            },
            Operand::AddressU16(a) => {
                lemma_word_write_read(s.memory, a, res);
            },
            Operand::RegisterAddressU16(r) => {
                lemma_word_write_read(s.memory, r.value(s) as u16, res);
            },
            _ => {},
        }
    }
}

/// A step on a jump with condition `Always` sets the program counter to the
/// value of the jump's target, read after the program counter has moved
/// past the encoding, whatever the flags hold.
pub proof fn lemma_always_jump(s: CpuView, opcode: u8, target: Operand)
    requires
        s.memory.byte(s.pc) matches Ok(b) && b as u8 == opcode,
        decoded_parts(opcode, s.pc) == seq![
            Instructions::Jp { cod: Operand::Flag(Flags::Always), op: target },
        ],
    ensures
        target.value(advanced(s, opcode)) matches Ok(t) ==> stepped(s) == (
        CpuView { pc: t as u16, ..advanced(s, opcode) },
        Ok::<(), CpuError>(()),
        ),
{
    reveal(Instructions::effect);
    lemma_run_single(
        Instructions::Jp { cod: Operand::Flag(Flags::Always), op: target },
        advanced(s, opcode),
    );
}

/// Opcode 0x00 is a no-op one byte long: a step on it moves the program
/// counter by one and changes nothing else.
pub proof fn lemma_nop_step(s: CpuView)
    requires
        s.memory.byte(s.pc) matches Ok(b) && b as u8 == 0x00,
    ensures
        decoded_parts(0x00, s.pc) == seq![Instructions::Nop],
        decoded_size(0x00) == 1,
        stepped(s) == (CpuView { pc: (s.pc + 1) as u16, ..s }, Ok::<(), CpuError>(())),
{
    reveal(Instructions::effect);
    lemma_run_single(Instructions::Nop, advanced(s, 0x00));
}

/// Opcode 0xC3 is an unconditional jump to the word that follows it.
pub proof fn lemma_absolute_jump(s: CpuView, w: i16)
    requires
        s.memory.byte(s.pc) matches Ok(b) && b as u8 == 0xC3,
        s.memory.word(operand_address(s.pc)) == Ok::<i16, AddressError>(w),
    ensures
        decoded_size(0xC3) == 3,
        stepped(s).0.pc == w as u16,
        stepped(s).1 is Ok,
{
    reveal(Instructions::effect);
    let n = operand_address(s.pc);
    lemma_run_single(
        Instructions::Jp { cod: Operand::Flag(Flags::Always), op: Operand::AddressU16(n) },
        advanced(s, 0xC3),
    );
}

/// Opcode 0xAF clears register A whatever it held.
pub proof fn lemma_xor_a_clears(s: CpuView)
    requires
        s.memory.byte(s.pc) matches Ok(b) && b as u8 == 0xAF,
    ensures
        stepped(s).0.a == 0,
        stepped(s).1 is Ok,
{
    reveal(Instructions::effect);
    let x = s.a;
    assert((((x as i16) ^ (x as i16)) as i8) == 0) by (bit_vector);
    lemma_run_single(
        Instructions::Xor { op1: Operand::Register(Register::A), op2: Operand::Register(Register::A) },
        advanced(s, 0xAF),
    );
}

/// A step on an opcode without a table entry fails, naming the opcode and
/// the address it was fetched from.
pub proof fn lemma_undefined_opcode(s: CpuView, opcode: u8)
    requires
        s.memory.byte(s.pc) matches Ok(b) && b as u8 == opcode,
        !is_defined(opcode),
    ensures
        stepped(s).1 == Err::<(), CpuError>(
            CpuError::UnimplementedOpcode { opcode, address: s.pc },
        ),
{
    reveal(Instructions::effect);
    lemma_run_single(Instructions::Undefined { opcode, address: s.pc }, advanced(s, opcode));
}

} // verus!
