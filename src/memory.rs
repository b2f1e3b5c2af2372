use vstd::prelude::*;

verus! {

/// Number of bytes in the work RAM buffer.
pub const RAM_SIZE: usize = 0x2000;

/// The physical storage a logical address falls in.
#[derive(Clone, Copy, Debug, PartialEq, Eq, Structural)]
pub enum Section {
    Rom,
    Ram,
}

/// A logical address resolved to a region and an offset into its buffer.
#[derive(Clone, Copy, Debug, PartialEq, Eq, Structural)]
pub struct TranslatedAddress {
    pub section: Section,
    pub address: u16,
}

/// Why an address has no storage behind it.
#[derive(Clone, Copy, Debug, PartialEq, Eq, Structural)]
pub enum AddressError {
    /// Address zero is never valid.
    Zero,
    /// The address lies in no ROM or RAM window.
    Unmapped,
    /// The address lies in the ROM window, past the end of the loaded image.
    OutsideRom,
}

/// Address translation: ROM below 0x8000, RAM strictly between 0xC000 and
/// 0xE000, and the same RAM again strictly between 0xE000 and 0xFE00.
pub open spec fn translation(address: u16) -> Result<TranslatedAddress, AddressError> {
    if address == 0 {
        Err(AddressError::Zero)
    } else if address < 0x8000 {
        Ok(TranslatedAddress { section: Section::Rom, address })
    } else if 0xC000 < address < 0xE000 {
        Ok(TranslatedAddress { section: Section::Ram, address: (address - 0xC000) as u16 })
    } else if 0xE000 < address < 0xFE00 {
        Ok(TranslatedAddress { section: Section::Ram, address: (address - 0xE000) as u16 })
    } else {
        Err(AddressError::Unmapped)
    }
}

/// The little-endian word made of a low and a high byte.
pub open spec fn word_of(low: i8, high: i8) -> i16 {
    (((high as u16) << 8u16) | ((low as u8) as u16)) as i16
}

/// Every nonzero address below 0x8000 is ROM at the same offset.
pub proof fn lemma_rom_identity(address: u16)
    requires
        1 <= address <= 0x7FFF,
    ensures
        translation(address) == Ok::<TranslatedAddress, AddressError>(
            TranslatedAddress { section: Section::Rom, address },
        ),
{
}

/// The two RAM windows alias one buffer: addresses at the same distance
/// from 0xC000 and from 0xE000 read the same byte, and a byte written
/// through either is read back through the other.
pub proof fn lemma_mirrored_ram(m: MemoryView, a: u16, mirror: u16, value: i8)
    requires
        m.wf(),
        0xC000 < a < 0xE000,
        0xE000 < mirror < 0xFE00,
        a - 0xC000 == mirror - 0xE000,
    ensures
        m.byte(a) == m.byte(mirror),
        m.with_byte(a, value) matches Ok(after) && after.byte(mirror) == Ok::<i8, AddressError>(value),
        m.with_byte(mirror, value) matches Ok(after) && after.byte(a) == Ok::<i8, AddressError>(value),
{
    assert(((value as u8) as i8) == value) by (bit_vector);
}

/// A byte written at an address is read back there.
pub proof fn lemma_byte_write_read(m: MemoryView, address: u16, value: i8)
    requires
        m.wf(),
    ensures
        m.with_byte(address, value) matches Ok(after) ==> after.wf() && after.byte(address) == Ok::<
            i8,
            AddressError,
        >(value),
{
    assert(((value as u8) as i8) == value) by (bit_vector);
}

/// A word written at an address is read back there: its two bytes never
/// share a slot.
pub proof fn lemma_word_write_read(m: MemoryView, address: u16, value: i16)
    requires
        m.wf(),
    ensures
        m.with_word(address, value) matches Ok(after) ==> after.wf() && after.word(address) == Ok::<
            i16,
            AddressError,
        >(value),
{
    assert(word_of(((value as u8) as i8), ((((value as u16) >> 8u16) as u8) as i8)) == value) by {
        assert((((((((value as u16) >> 8u16) as u8) as i8) as u16) << 8u16) | ((((value as u8) as i8)
            as u8) as u16)) as i16 == value) by (bit_vector);
    }
}

/// Contents of the address space: the ROM image and the RAM buffer.
pub struct MemoryView {
    pub rom: Seq<u8>,
    pub ram: Seq<u8>,
}

impl MemoryView {
    pub open spec fn wf(self) -> bool {
        self.ram.len() == RAM_SIZE
    }

    /// The storage slot behind an address, if it has one.
    pub open spec fn slot(self, address: u16) -> Result<TranslatedAddress, AddressError> {
        match translation(address) {
            Ok(t) => if t.section == Section::Rom && t.address >= self.rom.len() {
                Err(AddressError::OutsideRom)
            } else {
                Ok(t)
            },
            Err(e) => Err(e),
        }
    }

    pub open spec fn stored(self, t: TranslatedAddress) -> u8 {
        match t.section {
            Section::Rom => self.rom[t.address as int],
            Section::Ram => self.ram[t.address as int],
        }
    }

    pub open spec fn store(self, t: TranslatedAddress, value: u8) -> MemoryView {
        match t.section {
            Section::Rom => MemoryView { rom: self.rom.update(t.address as int, value), ..self },
            Section::Ram => MemoryView { ram: self.ram.update(t.address as int, value), ..self },
        }
    }

    /// The byte at an address.
    pub open spec fn byte(self, address: u16) -> Result<i8, AddressError> {
        match self.slot(address) {
            Ok(t) => Ok(self.stored(t) as i8),
            Err(e) => Err(e),
        }
    }

    /// The little-endian word at an address: low byte there, high byte next.
    pub open spec fn word(self, address: u16) -> Result<i16, AddressError> {
        match self.byte(address) {
            Err(e) => Err(e),
            Ok(low) => match self.byte((address + 1) as u16) {
                Err(e) => Err(e),
                Ok(high) => Ok(word_of(low, high)),
            },
        }
    }

    /// The contents after a byte is written at an address.
    pub open spec fn with_byte(self, address: u16, value: i8) -> Result<MemoryView, AddressError> {
        match self.slot(address) {
            Ok(t) => Ok(self.store(t, value as u8)),
            Err(e) => Err(e),
        }
    }

    /// The contents after a word is written at an address, low byte first;
    /// nothing is written unless both bytes have a slot.
    pub open spec fn with_word(self, address: u16, value: i16) -> Result<MemoryView, AddressError> {
        match self.slot(address) {
            Err(e) => Err(e),
            Ok(low) => match self.slot((address + 1) as u16) {
                Err(e) => Err(e),
                Ok(high) => Ok(self.store(low, value as u8).store(high, ((value as u16) >> 8u16) as u8)),
            },
        }
    }
}

/// ROM and RAM backing buffers behind the 16-bit address space.
pub struct Memory {
    rom: Vec<u8>,
    ram: Vec<u8>,
}

impl View for Memory {
    type V = MemoryView;

    closed spec fn view(&self) -> MemoryView {
        MemoryView { rom: self.rom@, ram: self.ram@ }
    }
}

impl Memory {
    pub open spec fn wf(&self) -> bool {
        self@.wf()
    }

    /// Maps an address to its region and offset, or says why it has none.
    pub fn translate_address(address: u16) -> (r: Result<TranslatedAddress, AddressError>)
        ensures
            r == translation(address),
    {
        if address == 0 {
            Err(AddressError::Zero)
        } else if address < 0x8000 {
            Ok(TranslatedAddress { section: Section::Rom, address })
        } else if address < 0xE000 && address > 0xC000 {
            Ok(TranslatedAddress { section: Section::Ram, address: address - 0xC000 })
        } else if address < 0xFE00 && address > 0xE000 {
            Ok(TranslatedAddress { section: Section::Ram, address: address - 0xE000 })
        } else {
            Err(AddressError::Unmapped)
        }
    }

    fn slot(&self, address: u16) -> (r: Result<TranslatedAddress, AddressError>)
        requires
            self.wf(),
        ensures
            r == self@.slot(address),
            r matches Ok(t) ==> match t.section {
                Section::Rom => t.address < self@.rom.len(),
                Section::Ram => t.address < self@.ram.len(),
            },
    {
        let t = Memory::translate_address(address)?;
        if t.section == Section::Rom && t.address as usize >= self.rom.len() {
            Err(AddressError::OutsideRom)
        } else {
            Ok(t)
        }
    }

    /// Reads the byte at an address.
    pub fn get_byte(&self, address: u16) -> (r: Result<i8, AddressError>)
        requires
            self.wf(),
        ensures
            r == self@.byte(address),
    {
        let t = self.slot(address)?;
        match t.section {
            Section::Rom => Ok(self.rom[t.address as usize] as i8),
            Section::Ram => Ok(self.ram[t.address as usize] as i8),
        }
    }

    /// Reads the little-endian word at an address.
    pub fn get_word(&self, address: u16) -> (r: Result<i16, AddressError>)
        requires
            self.wf(),
        ensures
            r == self@.word(address),
    {
        let low = self.get_byte(address)?;
        let high = self.get_byte(address + 1)?;
        Ok(Memory::compose_word(low, high))
    }

    /// The little-endian word made of a low and a high byte.
    pub fn compose_word(low: i8, high: i8) -> (r: i16)
        ensures
            r == word_of(low, high),
    {
        (((high as u16) << 8u16) | ((low as u8) as u16)) as i16
    }

    fn store(&mut self, t: TranslatedAddress, value: u8)
        requires
            old(self).wf(),
            match t.section {
                Section::Rom => t.address < old(self)@.rom.len(),
                Section::Ram => t.address < old(self)@.ram.len(),
            },
        ensures
            final(self).wf(),
            final(self)@ == old(self)@.store(t, value),
    {
        match t.section {
            Section::Rom => self.rom.set(t.address as usize, value),
            Section::Ram => self.ram.set(t.address as usize, value),
        }
    }

    /// Writes a byte at an address; on error nothing changes.
    pub fn set_byte(&mut self, address: u16, value: i8) -> (r: Result<(), AddressError>)
        requires
            old(self).wf(),
        ensures
            final(self).wf(),
            match old(self)@.with_byte(address, value) {
                Ok(m) => r is Ok && final(self)@ == m,
                Err(e) => r == Err::<(), AddressError>(e) && final(self)@ == old(self)@,
            },
    {
        let t = self.slot(address)?;
        self.store(t, value as u8);
        Ok(())
    }

    /// Writes a word at an address, low byte there and high byte next; on
    /// error nothing changes.
    pub fn set_word(&mut self, address: u16, value: i16) -> (r: Result<(), AddressError>)
        requires
            old(self).wf(),
        ensures
            final(self).wf(),
            match old(self)@.with_word(address, value) {
                Ok(m) => r is Ok && final(self)@ == m,
                Err(e) => r == Err::<(), AddressError>(e) && final(self)@ == old(self)@,
            },
    {
        let low = self.slot(address)?;
        if address == 0xFFFF {
            return Err(AddressError::Unmapped);
        }
        let high = self.slot(address + 1)?;
        self.store(low, value as u8);
        self.store(high, ((value as u16) >> 8u16) as u8);
        Ok(())
    }

    /// A memory holding the given ROM image and a zero-filled RAM.
    pub fn new(rom: Vec<u8>) -> (m: Memory)
        ensures
            m.wf(),
            m@.rom == rom@,
            m@.ram == Seq::new(RAM_SIZE as nat, |i: int| 0u8),
    {
        let ram: Vec<u8> = vec![0u8; RAM_SIZE];
        let m = Memory { rom, ram };
        assert(m@.ram =~= Seq::new(RAM_SIZE as nat, |i: int| 0u8));
        m
    }
}

} // verus!
