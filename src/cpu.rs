use vstd::prelude::*;


use crate::instructions::{stepped, Instructions};
use crate::memory::{word_of, AddressError, Memory, MemoryView};

verus! {

/// Why executing an instruction stopped.
#[derive(Clone, Copy, Debug, PartialEq, Eq, Structural)]
pub enum CpuError {
    /// A memory access hit an address without storage.
    Address(AddressError),
    /// The opcode fetched at `address` has no table entry.
    UnimplementedOpcode { opcode: u8, address: u16 },
    /// An attempt to assign the constant `Always` flag.
    InvalidFlagMutation,
    /// An attempt to write through a relative-displacement operand.
    UnwritableOperand,
}

/// Machine state: memory contents, program counter, registers and flags.
pub struct CpuView {
    pub memory: MemoryView,
    pub pc: u16,
    pub a: i8,
    pub b: i8,
    pub c: i8,
    pub d: i8,
    pub e: i8,
    pub h: i8,
    pub l: i8,
    pub fz: bool,
    pub fc: bool,
}

impl CpuView {
    pub open spec fn wf(self) -> bool {
        self.memory.wf()
    }

    /// The same state with the memory contents replaced.
    pub open spec fn with_memory(self, m: Result<MemoryView, AddressError>) -> Result<
        CpuView,
        CpuError,
    > {
        match m {
            Ok(memory) => Ok(CpuView { memory, ..self }),
            Err(e) => Err(CpuError::Address(e)),
        }
    }
}

/// The byte at an address, sign-extended, as an operand value.
pub open spec fn byte_operand(m: MemoryView, address: u16) -> Result<i16, CpuError> {
    match m.byte(address) {
        Ok(v) => Ok(v as i16),
        Err(e) => Err(CpuError::Address(e)),
    }
}

/// The word at an address as an operand value.
pub open spec fn word_operand(m: MemoryView, address: u16) -> Result<i16, CpuError> {
    match m.word(address) {
        Ok(v) => Ok(v),
        Err(e) => Err(CpuError::Address(e)),
    }
}

/// The high byte of a 16-bit value.
pub open spec fn high_byte(v: i16) -> i8 {
    ((v as u16) >> 8u16) as i8
}

/// Writing a 16-bit value to a register pair and reading the pair back
/// gives the value.
pub proof fn lemma_pair_round_trip(s: CpuView, pair: Register, v: i16)
    requires
        pair.is_pair(),
    ensures
        pair.value(pair.assigned(s, v)) == v,
{
    assert((((((v as u16) >> 8u16) as i8) as u16) << 8u16 | (((v as i8) as u8) as u16)) as i16
        == v) by (bit_vector);
}

/// The CPU: register file, flags, program counter and the address space it
/// owns.
pub struct CPU {
    memory: Memory,
    pc: u16,
    a: i8,
    b: i8,
    c: i8,
    d: i8,
    e: i8,
    h: i8,
    l: i8,
    fz: bool,
    fc: bool,
}

impl View for CPU {
    type V = CpuView;

    closed spec fn view(&self) -> CpuView {
        CpuView {
            memory: self.memory@,
            pc: self.pc,
            a: self.a,
            b: self.b,
            c: self.c,
            d: self.d,
            e: self.e,
            h: self.h,
            l: self.l,
            fz: self.fz,
            fc: self.fc,
        }
    }
}

/// Condition flags; `Always` reads as true and cannot be assigned.
#[derive(Clone, Copy, Debug, PartialEq, Eq, Structural)]
pub enum Flags {
    Z,
    C,
    Always,
}

impl Flags {
    pub open spec fn holds(self, s: CpuView) -> bool {
        match self {
            Flags::Z => s.fz,
            Flags::C => s.fc,
            Flags::Always => true,
        }
    }

    pub open spec fn assigned(self, s: CpuView, value: bool) -> Result<CpuView, CpuError> {
        match self {
            Flags::Z => Ok(CpuView { fz: value, ..s }),
            Flags::C => Ok(CpuView { fc: value, ..s }),
            Flags::Always => Err(CpuError::InvalidFlagMutation),
        }
    }

    pub fn get(&self, cpu: &CPU) -> (r: bool)
        ensures
            r == self.holds(cpu@),
    {
        match self {
            Flags::Z => cpu.fz,
            Flags::C => cpu.fc,
            Flags::Always => true,
        }
    }

    /// Assigns the flag; assigning `Always` is refused and changes nothing.
    pub fn set(&self, cpu: &mut CPU, value: bool) -> (r: Result<(), CpuError>)
        ensures
            match self.assigned(old(cpu)@, value) {
                Ok(s) => r is Ok && final(cpu)@ == s,
                Err(e) => r == Err::<(), CpuError>(e) && final(cpu)@ == old(cpu)@,
            },
    {
        match self {
            Flags::Z => {
                cpu.fz = value;
                Ok(())
            },
            Flags::C => {
                cpu.fc = value;
                Ok(())
            },
            Flags::Always => Err(CpuError::InvalidFlagMutation),
        }
    }
}

/// The 8-bit registers and the 16-bit pairs made of them, the first-named
/// register of a pair being its high byte.
#[derive(Clone, Copy, Debug, PartialEq, Eq, Structural)]
pub enum Register {
    A,
    B,
    C,
    D,
    E,
    H,
    L,
    BC,
    HL,
    DE,
}

impl Register {
    pub open spec fn is_pair(self) -> bool {
        self is BC || self is HL || self is DE
    }

    /// The register's value: an 8-bit register sign-extended, a pair composed.
    pub open spec fn value(self, s: CpuView) -> i16 {
        match self {
            Register::A => s.a as i16,
            Register::B => s.b as i16,
            Register::C => s.c as i16,
            Register::D => s.d as i16,
            Register::E => s.e as i16,
            Register::H => s.h as i16,
            Register::L => s.l as i16,
            Register::BC => word_of(s.c, s.b),
            Register::HL => word_of(s.l, s.h),
            Register::DE => word_of(s.e, s.d),
        }
    }

    /// The state after a write: an 8-bit register takes the low byte, a pair
    /// is split into its high and low registers.
    pub open spec fn assigned(self, s: CpuView, v: i16) -> CpuView {
        match self {
            Register::A => CpuView { a: v as i8, ..s },
            Register::B => CpuView { b: v as i8, ..s },
            Register::C => CpuView { c: v as i8, ..s },
            Register::D => CpuView { d: v as i8, ..s },
            Register::E => CpuView { e: v as i8, ..s },
            Register::H => CpuView { h: v as i8, ..s },
            Register::L => CpuView { l: v as i8, ..s },
            Register::BC => CpuView { b: high_byte(v), c: v as i8, ..s },
            Register::HL => CpuView { h: high_byte(v), l: v as i8, ..s },
            Register::DE => CpuView { d: high_byte(v), e: v as i8, ..s },
        }
    }

    pub fn read(&self, cpu: &CPU) -> (r: i16)
        ensures
            r == self.value(cpu@),
    {
        match self {
            Register::A => cpu.a as i16,
            Register::B => cpu.b as i16,
            Register::C => cpu.c as i16,
            Register::D => cpu.d as i16,
            Register::E => cpu.e as i16,
            Register::H => cpu.h as i16,
            Register::L => cpu.l as i16,
            Register::BC => Memory::compose_word(cpu.c, cpu.b),
            Register::HL => Memory::compose_word(cpu.l, cpu.h),
            Register::DE => Memory::compose_word(cpu.e, cpu.d),
        }
    }

    pub fn write(&self, cpu: &mut CPU, value: i16)
        ensures
            final(cpu)@ == self.assigned(old(cpu)@, value),
    {
        let high = ((value as u16) >> 8u16) as i8;
        match self {
            Register::A => cpu.a = value as i8,
            Register::B => cpu.b = value as i8,
            Register::C => cpu.c = value as i8,
            Register::D => cpu.d = value as i8,
            Register::E => cpu.e = value as i8,
            Register::H => cpu.h = value as i8,
            Register::L => cpu.l = value as i8,
            Register::BC => {
                cpu.b = high;
                cpu.c = value as i8;
            },
            Register::HL => {
                cpu.h = high;
                cpu.l = value as i8;
            },
            Register::DE => {
                cpu.d = high;
                cpu.e = value as i8;
            },
        }
    }
}

/// An addressing-mode descriptor, resolved against the state when used.
#[derive(Clone, Copy, Debug, PartialEq, Eq, Structural)]
pub enum Operand {
    /// The byte at a fixed address.
    AddressU8(u16),
    /// The word at a fixed address.
    AddressU16(u16),
    /// The program counter plus the signed byte stored at a fixed address.
    Move(u16),
    /// 1 when the flag holds, else 0.
    Flag(Flags),
    /// 1 when the flag does not hold, else 0.
    NotFlag(Flags),
    Register(Register),
    /// The byte at the address held in a register.
    RegisterAddressU8(Register),
    /// The word at the address held in a register.
    RegisterAddressU16(Register),
}

impl Operand {
    pub open spec fn value(self, s: CpuView) -> Result<i16, CpuError> {
        match self {
            Operand::AddressU8(address) => byte_operand(s.memory, address),
            Operand::AddressU16(address) => word_operand(s.memory, address),
            Operand::Register(r) => Ok(r.value(s)),
            Operand::RegisterAddressU8(r) => byte_operand(s.memory, r.value(s) as u16),
            Operand::RegisterAddressU16(r) => word_operand(s.memory, r.value(s) as u16),
            Operand::Flag(f) => Ok(if f.holds(s) { 1 } else { 0 }),
            Operand::NotFlag(f) => Ok(if f.holds(s) { 0 } else { 1 }),
            Operand::Move(address) => match s.memory.byte(address) {
                Ok(by) => Ok((s.pc + by) as i16),
                Err(e) => Err(CpuError::Address(e)),
            },
        }
    }

    /// The state after a write; a flag operand takes whether the value is
    /// nonzero.
    pub open spec fn assigned(self, s: CpuView, v: i16) -> Result<CpuView, CpuError> {
        match self {
            Operand::AddressU8(address) => s.with_memory(s.memory.with_byte(address, v as i8)),
            Operand::AddressU16(address) => s.with_memory(s.memory.with_word(address, v)),
            Operand::Register(r) => Ok(r.assigned(s, v)),
            Operand::RegisterAddressU8(r) => s.with_memory(
                s.memory.with_byte(r.value(s) as u16, v as i8),
            ),
            Operand::RegisterAddressU16(r) => s.with_memory(
                s.memory.with_word(r.value(s) as u16, v),
            ),
            Operand::Flag(f) => f.assigned(s, v != 0),
            Operand::NotFlag(f) => f.assigned(s, v != 0),
            Operand::Move(_) => Err(CpuError::UnwritableOperand),
        }
    }

    fn read_byte_at(cpu: &CPU, address: u16) -> (r: Result<i16, CpuError>)
        requires
            cpu.wf(),
        ensures
            r == byte_operand(cpu@.memory, address),
    {
        match cpu.memory.get_byte(address) {
            Ok(v) => Ok(v as i16),
            Err(e) => Err(CpuError::Address(e)),
        }
    }

    fn read_word_at(cpu: &CPU, address: u16) -> (r: Result<i16, CpuError>)
        requires
            cpu.wf(),
        ensures
            r == word_operand(cpu@.memory, address),
    {
        match cpu.memory.get_word(address) {
            Ok(v) => Ok(v),
            Err(e) => Err(CpuError::Address(e)),
        }
    }

    fn write_byte_at(cpu: &mut CPU, address: u16, value: i8) -> (r: Result<(), CpuError>)
        requires
            old(cpu).wf(),
        ensures
            final(cpu).wf(),
            match old(cpu)@.with_memory(old(cpu)@.memory.with_byte(address, value)) {
                Ok(s) => r is Ok && final(cpu)@ == s,
                Err(e) => r == Err::<(), CpuError>(e) && final(cpu)@ == old(cpu)@,
            },
    {
        match cpu.memory.set_byte(address, value) {
            Ok(()) => Ok(()),
            Err(e) => Err(CpuError::Address(e)),
        }
    }

    fn write_word_at(cpu: &mut CPU, address: u16, value: i16) -> (r: Result<(), CpuError>)
        requires
            old(cpu).wf(),
        ensures
            final(cpu).wf(),
            match old(cpu)@.with_memory(old(cpu)@.memory.with_word(address, value)) {
                Ok(s) => r is Ok && final(cpu)@ == s,
                Err(e) => r == Err::<(), CpuError>(e) && final(cpu)@ == old(cpu)@,
            },
    {
        match cpu.memory.set_word(address, value) {
            Ok(()) => Ok(()),
            Err(e) => Err(CpuError::Address(e)),
        }
    }

    /// Resolves the operand to a value.
    pub fn get(&self, cpu: &CPU) -> (r: Result<i16, CpuError>)
        requires
            cpu.wf(),
        ensures
            r == self.value(cpu@),
    {
        match self {
            Operand::AddressU8(address) => Operand::read_byte_at(cpu, *address),
            Operand::AddressU16(address) => Operand::read_word_at(cpu, *address),
            Operand::Register(register) => Ok(register.read(cpu)),
            Operand::RegisterAddressU8(register) => {
                let address = register.read(cpu) as u16;
                Operand::read_byte_at(cpu, address)
            },
            Operand::RegisterAddressU16(register) => {
                let address = register.read(cpu) as u16;
                Operand::read_word_at(cpu, address)
            },
            Operand::Flag(flag) => Ok(if flag.get(cpu) { 1 } else { 0 }),
            Operand::NotFlag(flag) => Ok(if flag.get(cpu) { 0 } else { 1 }),
            Operand::Move(address) => match cpu.memory.get_byte(*address) {
                Ok(by) => Ok((cpu.pc as i32 + by as i32) as i16),
                Err(e) => Err(CpuError::Address(e)),
            },
        }
    }

    /// Writes a value through the operand; on error nothing changes.
    pub fn set(&self, cpu: &mut CPU, value: i16) -> (r: Result<(), CpuError>)
        requires
            old(cpu).wf(),
        ensures
            final(cpu).wf(),
            match self.assigned(old(cpu)@, value) {
                Ok(s) => r is Ok && final(cpu)@ == s,
                Err(e) => r == Err::<(), CpuError>(e) && final(cpu)@ == old(cpu)@,
            },
    {
        match self {
            Operand::AddressU8(address) => Operand::write_byte_at(cpu, *address, value as i8),
            Operand::AddressU16(address) => Operand::write_word_at(cpu, *address, value),
            Operand::Register(register) => {
                register.write(cpu, value);
                Ok(())
            },
            Operand::RegisterAddressU8(register) => {
                let address = register.read(cpu) as u16;
                Operand::write_byte_at(cpu, address, value as i8)
            },
            Operand::RegisterAddressU16(register) => {
                let address = register.read(cpu) as u16;
                Operand::write_word_at(cpu, address, value)
            },
            Operand::Flag(flag) => flag.set(cpu, value != 0),
            Operand::NotFlag(flag) => flag.set(cpu, value != 0),
            Operand::Move(_) => Err(CpuError::UnwritableOperand),
        }
    }
}

impl CPU {
    pub open spec fn wf(&self) -> bool {
        self@.wf()
    }

    /// The program counter.
    pub fn pc(&self) -> (r: u16)
        ensures
            r == self@.pc,
    {
        self.pc
    }

    /// The address space the CPU owns.
    pub fn memory(&self) -> (r: &Memory)
        ensures
            r@ == self@.memory,
    {
        &self.memory
    }

    /// Moves the program counter.
    pub fn jump(&mut self, target: u16)
        ensures
            final(self)@ == (CpuView { pc: target, ..old(self)@ }),
    {
        self.pc = target;
    }

    /// Runs one instruction: fetch the opcode at the program counter,
    /// decode it, move the program counter past its encoding, execute it.
    pub fn step(&mut self) -> (r: Result<(), CpuError>)
        requires
            old(self).wf(),
        ensures
            final(self).wf(),
            final(self)@ == stepped(old(self)@).0,
            match stepped(old(self)@).1 {
                Ok(_) => r is Ok,
                Err(e) => r == Err::<(), CpuError>(e),
            },
    {
        let opcode = match self.memory.get_byte(self.pc) {
            Ok(byte) => byte,
            Err(e) => return Err(CpuError::Address(e)),
        };
        let (instruction, size) = Instructions::decode(opcode as u8, self.pc);
        self.pc = self.pc + size as u16;
        instruction.execute(self)
    }

    /// A CPU in the post-boot state over the given memory.
    pub fn new(memory: Memory) -> (r: CPU)
        requires
            memory.wf(),
        ensures
            r.wf(),
            r@ == (CpuView {
                memory: memory@,
                pc: 0x100,
                a: 0x01,
                b: 0x00,
                c: 0x13,
                d: 0x00,
                e: 0xD8u8 as i8,
                h: 0x01,
                l: 0x4D,
                fz: false,
                fc: false,
            }),
    {
        CPU {
            memory,
            pc: 0x100,
            a: 0x01,
            b: 0x00,
            c: 0x13,
            d: 0x00,
            e: 0xD8u8 as i8,
            h: 0x01,
            l: 0x4D,
            fz: false,
            fc: false,
        }
    }
}

} // verus!
