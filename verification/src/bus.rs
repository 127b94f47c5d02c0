//! The memory bus: a 64 KiB address space cut into seven backed regions and
//! two gaps that nothing answers.
//!
//! Four choices are made here. Writes to the cartridge region succeed, as
//! reads do, because no bank controller exists to give them another meaning.
//! A word access touches `address` and `address + 1` and never wraps: at
//! `0xFFFF` the second byte lies outside the address space, so the access is
//! refused. A refused word write changes nothing, not even its first byte.
//! The boot program is copied over the first 256 bytes of the cartridge
//! region: what it replaces is gone, and nothing unmaps it later.

use vstd::prelude::*;
use crate::common::{combine_bytes, high_of, low_of, split_word, word_of};

verus! {

/// First address of the cartridge region.
pub const ROM_SPACE_BEGIN: usize = 0x0000;

/// Last address of the cartridge region.
pub const ROM_SPACE_END: usize = 0x7FFF;

/// First address of video RAM.
pub const VRAM_BEGIN: usize = 0x8000;

/// Last address of video RAM.
pub const VRAM_END: usize = 0x9FFF;

/// First address of external RAM.
pub const EXTERNAL_RAM_BEGIN: usize = 0xA000;

/// Last address of external RAM.
pub const EXTERNAL_RAM_END: usize = 0xBFFF;

/// First address of work RAM.
pub const RAM_BEGIN: usize = 0xC000;

/// Last address of work RAM.
pub const RAM_END: usize = 0xDFFF;

/// First address of object attribute memory.
pub const OAM_RAM_BEGIN: usize = 0xFE00;

/// Last address of object attribute memory.
pub const OAM_RAM_END: usize = 0xFE9F;

/// First address of the I/O registers.
pub const IO_RAM_BEGIN: usize = 0xFF00;

/// Last address of the I/O registers.
pub const IO_RAM_END: usize = 0xFF7F;

/// First address of high RAM.
pub const HRAM_BEGIN: usize = 0xFF80;

/// Last address of high RAM.
pub const HRAM_END: usize = 0xFFFF;

/// Number of bytes that the boot program occupies at the bottom of the
/// cartridge region.
pub const BOOT_ROM_SIZE: usize = 256;

/// What answers at an address.
#[derive(Copy, Clone, Debug, PartialEq, Eq, Structural)]
pub enum Region {
    /// The cartridge, `0x0000` to `0x7FFF`.
    Rom,
    /// Video RAM, `0x8000` to `0x9FFF`.
    Vram,
    /// External RAM, `0xA000` to `0xBFFF`.
    ExternalRam,
    /// Work RAM, `0xC000` to `0xDFFF`.
    Ram,
    /// Object attribute memory, `0xFE00` to `0xFE9F`.
    Oam,
    /// The I/O registers, `0xFF00` to `0xFF7F`.
    Io,
    /// High RAM, `0xFF80` to `0xFFFF`.
    Hram,
    /// Nothing: the gaps `0xE000` to `0xFDFF` and `0xFEA0` to `0xFEFF`.
    Unassigned,
}

/// Why a memory access was refused.
#[derive(Copy, Clone, Debug, PartialEq, Eq, Structural)]
pub enum MemoryError {
    /// The access touched an address that no region backs.
    UnassignedAddress,
}

/// The region that answers at `address`. Every address has exactly one; the
/// two gaps, and everything outside the 16-bit range, are `Unassigned`.
pub open spec fn region_of(address: int) -> Region {
    if 0x0000 <= address <= 0x7FFF {
        Region::Rom
    } else if 0x8000 <= address <= 0x9FFF {
        Region::Vram
    } else if 0xA000 <= address <= 0xBFFF {
        Region::ExternalRam
    } else if 0xC000 <= address <= 0xDFFF {
        Region::Ram
    } else if 0xFE00 <= address <= 0xFE9F {
        Region::Oam
    } else if 0xFF00 <= address <= 0xFF7F {
        Region::Io
    } else if 0xFF80 <= address <= 0xFFFF {
        Region::Hram
    } else {
        Region::Unassigned
    }
}

/// Whether a region stores a byte for `address`.
pub open spec fn is_backed(address: int) -> bool {
    region_of(address) != Region::Unassigned
}

/// The memory that maps every backed address to zero.
pub open spec fn blank_memory() -> Map<int, u8> {
    Map::new(|a: int| is_backed(a), |a: int| 0u8)
}

/// `memory` with the 256 bytes of `image` laid over addresses 0 to 255.
pub open spec fn overlay(memory: Map<int, u8>, image: Seq<u8>) -> Map<int, u8> {
    Map::new(
        |a: int| memory.contains_key(a),
        |a: int|
            if 0 <= a < 256 {
                image[a]
            } else {
                memory[a]
            },
    )
}

/// The word stored little-endian at `address`: low byte first.
pub open spec fn word_at(memory: Map<int, u8>, address: int) -> u16 {
    word_of(memory[address], memory[address + 1])
}

/// `memory` after `word` is stored little-endian at `address`.
pub open spec fn store_word(memory: Map<int, u8>, address: int, word: u16) -> Map<int, u8> {
    memory.insert(address, low_of(word)).insert(address + 1, high_of(word))
}

/// A word read back where it was written is the word written, whatever the
/// memory held before.
pub proof fn lemma_word_write_then_read(memory: Map<int, u8>, address: int, word: u16)
    ensures
        word_at(store_word(memory, address, word), address) == word,
{
}

/// A stored word lies low byte first, touches no other address, and adds
/// nothing to a memory that already held both of its addresses.
pub proof fn lemma_store_word_layout(memory: Map<int, u8>, address: int, word: u16)
    ensures
        store_word(memory, address, word)[address] == low_of(word),
        store_word(memory, address, word)[address + 1] == high_of(word),
        forall|a: int|
            a != address && a != address + 1 ==> store_word(memory, address, word)[a]
                == memory[a],
        memory.contains_key(address) && memory.contains_key(address + 1) ==> store_word(
            memory,
            address,
            word,
        ).dom() =~= memory.dom(),
{
}

/// No bus holds a byte for an address in either gap: `0xE000` to `0xFDFF` and
/// `0xFEA0` to `0xFEFF`. Every access there is refused.
pub proof fn lemma_gaps_refuse(bus: MemoryBus, address: int)
    requires
        0xE000 <= address <= 0xFDFF || 0xFEA0 <= address <= 0xFEFF,
    ensures
        region_of(address) == Region::Unassigned,
        !bus@.contains_key(address),
{
}

/// Every bus holds a byte for every 16-bit address outside the two gaps, and
/// for no address outside the 16-bit range.
pub proof fn lemma_backed_outside_gaps(bus: MemoryBus, address: int)
    ensures
        0 <= address <= 0xFFFF && !(0xE000 <= address <= 0xFDFF) && !(0xFEA0 <= address
            <= 0xFEFF) ==> bus@.contains_key(address),
        !(0 <= address <= 0xFFFF) ==> !bus@.contains_key(address),
{
}

/// After the boot program is laid over memory, its 256 bytes are what the
/// first 256 addresses hold, and every other address holds what it held.
pub proof fn lemma_overlay_bytes(memory: Map<int, u8>, image: Seq<u8>, address: int)
    requires
        memory.contains_key(address),
    ensures
        overlay(memory, image).contains_key(address),
        0 <= address < 256 ==> overlay(memory, image)[address] == image[address],
        !(0 <= address < 256) ==> overlay(memory, image)[address] == memory[address],
{
}

/// The bus and the storage behind it.
pub struct MemoryBus {
    rom_mem: [u8; 0x8000],
    vram_mem: [u8; 0x2000],
    extern_mem: [u8; 0x2000],
    ram_mem: [u8; 0x2000],
    oam_mem: [u8; 0xA0],
    io_ram_mem: [u8; 0x80],
    hram_mem: [u8; 0x80],
}

impl View for MemoryBus {
    type V = Map<int, u8>;

    /// The memory as a map from each backed address to the byte stored there.
    /// The gaps are not in its domain.
    open spec fn view(&self) -> Map<int, u8> {
        Map::new(|a: int| is_backed(a), |a: int| self.cell(a))
    }
}

impl MemoryBus {
    /// The byte that the storage holds for `address`.
    pub closed spec fn cell(&self, address: int) -> u8 {
        match region_of(address) {
            Region::Rom => self.rom_mem@[address],
            Region::Vram => self.vram_mem@[address - 0x8000],
            Region::ExternalRam => self.extern_mem@[address - 0xA000],
            Region::Ram => self.ram_mem@[address - 0xC000],
            Region::Oam => self.oam_mem@[address - 0xFE00],
            Region::Io => self.io_ram_mem@[address - 0xFF00],
            Region::Hram => self.hram_mem@[address - 0xFF80],
            Region::Unassigned => 0,
        }
    }

    /// Names the region that answers at `address`.
    pub fn region(address: u16) -> (region: Region)
        ensures
            region == region_of(address as int),
    {
        let a: usize = address as usize;
        if a <= ROM_SPACE_END {
            Region::Rom
        } else if a <= VRAM_END {
            Region::Vram
        } else if a <= EXTERNAL_RAM_END {
            Region::ExternalRam
        } else if a <= RAM_END {
            Region::Ram
        } else if OAM_RAM_BEGIN <= a && a <= OAM_RAM_END {
            Region::Oam
        } else if IO_RAM_BEGIN <= a && a <= IO_RAM_END {
            Region::Io
        } else if HRAM_BEGIN <= a {
            Region::Hram
        } else {
            Region::Unassigned
        }
    }

    /// Reads the byte at `address`. Fails exactly when the address lies in a gap.
    pub fn get_byte(&self, address: u16) -> (r: Result<u8, MemoryError>)
        ensures
            is_backed(address as int) ==> r == Ok::<u8, MemoryError>(self@[address as int]),
            !is_backed(address as int) ==> r == Err::<u8, MemoryError>(
                MemoryError::UnassignedAddress,
            ),
    {
        let a: usize = address as usize;
        match Self::region(address) {
            Region::Rom => Ok(self.rom_mem[a]),
            Region::Vram => Ok(self.vram_mem[a - VRAM_BEGIN]),
            Region::ExternalRam => Ok(self.extern_mem[a - EXTERNAL_RAM_BEGIN]),
            Region::Ram => Ok(self.ram_mem[a - RAM_BEGIN]),
            Region::Oam => Ok(self.oam_mem[a - OAM_RAM_BEGIN]),
            Region::Io => Ok(self.io_ram_mem[a - IO_RAM_BEGIN]),
            Region::Hram => Ok(self.hram_mem[a - HRAM_BEGIN]),
            Region::Unassigned => Err(MemoryError::UnassignedAddress),
        }
    }

    /// Reads the little-endian word at `address` and `address + 1`. Fails
    /// exactly when either byte lies in a gap or beyond the top of the address
    /// space.
    pub fn get_2bytes(&self, address: u16) -> (r: Result<u16, MemoryError>)
        ensures
            is_backed(address as int) && is_backed(address + 1) ==> r == Ok::<u16, MemoryError>(
                word_at(self@, address as int),
            ),
            !(is_backed(address as int) && is_backed(address + 1)) ==> r == Err::<
                u16,
                MemoryError,
            >(MemoryError::UnassignedAddress),
    {
        if address == u16::MAX {
            return Err(MemoryError::UnassignedAddress);
        }
        let low: u8 = match self.get_byte(address) {
            Ok(byte) => byte,
            Err(e) => {
                return Err(e);
            },
        };
        let high: u8 = match self.get_byte(address + 1) {
            Ok(byte) => byte,
            Err(e) => {
                return Err(e);
            },
        };
        Ok(combine_bytes(low, high))
    }

    /// Stores `data` at `address`. Fails, and changes nothing, exactly when the
    /// address lies in a gap.
    pub fn write_byte(&mut self, address: u16, data: u8) -> (r: Result<(), MemoryError>)
        ensures
            is_backed(address as int) ==> r == Ok::<(), MemoryError>(()) && final(self)@ == old(
                self,
            )@.insert(address as int, data),
            !is_backed(address as int) ==> r == Err::<(), MemoryError>(
                MemoryError::UnassignedAddress,
            ) && *final(self) == *old(self),
    {
        let a: usize = address as usize;
        match Self::region(address) {
            Region::Rom => {
                self.rom_mem[a] = data;
            },
            Region::Vram => {
                self.vram_mem[a - VRAM_BEGIN] = data;
            },
            Region::ExternalRam => {
                self.extern_mem[a - EXTERNAL_RAM_BEGIN] = data;
            },
            Region::Ram => {
                self.ram_mem[a - RAM_BEGIN] = data;
            },
            Region::Oam => {
                self.oam_mem[a - OAM_RAM_BEGIN] = data;
            },
            Region::Io => {
                self.io_ram_mem[a - IO_RAM_BEGIN] = data;
            },
            Region::Hram => {
                self.hram_mem[a - HRAM_BEGIN] = data;
            },
            Region::Unassigned => {
                return Err(MemoryError::UnassignedAddress);
            },
        }
        assert(self@ =~= old(self)@.insert(address as int, data));
        Ok(())
    }

    /// Stores `data` little-endian at `address` and `address + 1`. Fails, and
    /// changes nothing, exactly when either byte lies in a gap or beyond the
    /// top of the address space.
    pub fn write_2bytes(&mut self, address: u16, data: u16) -> (r: Result<(), MemoryError>)
        ensures
            is_backed(address as int) && is_backed(address + 1) ==> r == Ok::<(), MemoryError>(())
                && final(self)@ == store_word(old(self)@, address as int, data),
            !(is_backed(address as int) && is_backed(address + 1)) ==> r == Err::<
                (),
                MemoryError,
            >(MemoryError::UnassignedAddress) && *final(self) == *old(self),
    {
        if address == u16::MAX {
            return Err(MemoryError::UnassignedAddress);
        }
        if Self::region(address) == Region::Unassigned || Self::region(address + 1)
            == Region::Unassigned {
            return Err(MemoryError::UnassignedAddress);
        }
        let (low, high) = split_word(data);
        let _ = self.write_byte(address, low);
        let _ = self.write_byte(address + 1, high);
        Ok(())
    }

    /// Lays the boot program over the first 256 bytes of the cartridge region,
    /// replacing what was there. The rest of memory is untouched.
    pub fn load_boot_rom(&mut self, boot_rom: &[u8; 256])
        ensures
            final(self)@ == overlay(old(self)@, boot_rom@),
    {
        let mut i: usize = 0;
        while i < BOOT_ROM_SIZE
            invariant
                i <= BOOT_ROM_SIZE,
                forall|a: int| 0 <= a < i ==> self.cell(a) == boot_rom@[a],
                forall|a: int| !(0 <= a < i) ==> self.cell(a) == old(self).cell(a),
            decreases BOOT_ROM_SIZE - i,
        {
            self.rom_mem[i] = boot_rom[i];
            i += 1;
        }
        assert(self@ =~= overlay(old(self)@, boot_rom@));
    }

    /// Reads the operand byte that follows the byte `pc` points at, and moves
    /// `pc` onto it. Fails, and leaves `pc` alone, exactly when that byte lies
    /// in a gap or beyond the top of the address space.
    pub fn get_imm8(&self, pc: &mut u16) -> (r: Result<u8, MemoryError>)
        ensures
            is_backed(*old(pc) + 1) ==> r == Ok::<u8, MemoryError>(self@[*old(pc) + 1])
                && *final(pc) == *old(pc) + 1,
            !is_backed(*old(pc) + 1) ==> r == Err::<u8, MemoryError>(
                MemoryError::UnassignedAddress,
            ) && *final(pc) == *old(pc),
    {
        if *pc == u16::MAX {
            return Err(MemoryError::UnassignedAddress);
        }
        let r = self.get_byte(*pc + 1);
        if r.is_ok() {
            *pc = *pc + 1;
        }
        r
    }

    /// Reads the little-endian operand word that follows the byte `pc` points
    /// at, and moves `pc` onto its second byte. Fails, and leaves `pc` alone,
    /// exactly when either byte lies in a gap or beyond the top of the address
    /// space.
    pub fn get_imm16(&self, pc: &mut u16) -> (r: Result<u16, MemoryError>)
        ensures
            is_backed(*old(pc) + 1) && is_backed(*old(pc) + 2) ==> r == Ok::<u16, MemoryError>(
                word_at(self@, *old(pc) + 1),
            ) && *final(pc) == *old(pc) + 2,
            !(is_backed(*old(pc) + 1) && is_backed(*old(pc) + 2)) ==> r == Err::<
                u16,
                MemoryError,
            >(MemoryError::UnassignedAddress) && *final(pc) == *old(pc),
    {
        if *pc == u16::MAX {
            return Err(MemoryError::UnassignedAddress);
        }
        let r = self.get_2bytes(*pc + 1);
        if r.is_ok() {
            *pc = *pc + 2;
        }
        r
    }
}

impl Default for MemoryBus {
    /// A bus whose every backed byte is zero.
    fn default() -> (bus: MemoryBus)
        ensures
            bus@ == blank_memory(),
    {
        let bus = MemoryBus {
            rom_mem: [0; 0x8000],
            vram_mem: [0; 0x2000],
            extern_mem: [0; 0x2000],
            ram_mem: [0; 0x2000],
            oam_mem: [0; 0xA0],
            io_ram_mem: [0; 0x80],
            hram_mem: [0; 0x80],
        };
        assert(bus@ =~= blank_memory());
        bus
    }
}

} // verus!
