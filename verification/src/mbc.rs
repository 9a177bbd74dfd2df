//! Cartridge memory-bank controllers: the three common variants behind one
//! capability of four operations.

use vstd::prelude::*;
use vstd::slice::{slice_subrange, slice_to_vec};
use crate::error::CoreError;

verus! {

/// Bytes in one ROM bank.
pub const ROM_BANK_SIZE: usize = 0x4000;

/// Bytes in one cartridge RAM bank.
pub const RAM_BANK_SIZE: usize = 0x2000;

/// First address of the cartridge RAM window.
pub const RAM_WINDOW: usize = 0xA000;

/// The controller variants.
#[derive(Debug, Clone, Copy, PartialEq, Eq, Structural)]
pub enum MbcKind {
    V1,
    V2,
    V3,
}

/// What a controller holds: the ROM image, the cartridge RAM and the
/// banking registers.
pub struct CartState {
    pub kind: MbcKind,
    pub rom: Seq<u8>,
    pub ram: Seq<u8>,
    /// Number of 16 KiB banks in the image.
    pub banks: int,
    /// Bank seen at `4000..7FFF`.
    pub rom_bank: int,
    /// Bank seen at `0000..3FFF`.
    pub zero_bank: int,
    /// The secondary register: the RAM bank, and on large carts of the first
    /// variant the upper bits of the ROM bank.
    pub ram_bank: int,
    pub ram_enabled: bool,
    pub mode: bool,
}

/// The bank counts that a header can declare.
pub open spec fn valid_bank_count(banks: int) -> bool {
    banks == 2 || banks == 4 || banks == 8 || banks == 16 || banks == 32 || banks == 64
        || banks == 128 || banks == 256 || banks == 512 || banks == 72 || banks == 80
        || banks == 96
}

/// The bank count that a header's size code declares, if it is supported:
/// codes 0 to 8 double from two banks on, three more stand for 72, 80 and 96.
pub open spec fn banks_of_code(code: u8) -> Option<int> {
    if code == 0 {
        Some(2)
    } else if code == 1 {
        Some(4)
    } else if code == 2 {
        Some(8)
    } else if code == 3 {
        Some(16)
    } else if code == 4 {
        Some(32)
    } else if code == 5 {
        Some(64)
    } else if code == 6 {
        Some(128)
    } else if code == 7 {
        Some(256)
    } else if code == 8 {
        Some(512)
    } else if code == 0x52 {
        Some(72)
    } else if code == 0x53 {
        Some(80)
    } else if code == 0x54 {
        Some(96)
    } else {
        None
    }
}

/// The controller variant that a header's type code names, if it is supported.
pub open spec fn kind_of_code(code: u8) -> Option<MbcKind> {
    if code <= 0x03 {
        Some(MbcKind::V1)
    } else if code == 0x05 || code == 0x06 {
        Some(MbcKind::V2)
    } else if 0x0F <= code <= 0x13 {
        Some(MbcKind::V3)
    } else {
        None
    }
}

/// Bytes of cartridge RAM that each variant carries.
pub open spec fn ram_len(kind: MbcKind) -> int {
    match kind {
        MbcKind::V1 => 0x8000,
        MbcKind::V2 => 512,
        MbcKind::V3 => 0x10000,
    }
}

/// Whether a write to the enable range switches the RAM on: its low nibble
/// must be `0xA`.
pub open spec fn enables_ram(data: u8) -> bool {
    data % 16 == 0x0A
}

/// The ROM bank that the first variant maps at `4000..7FFF` after `data` is
/// written to its bank register. A zero selects bank 1, and an image of
/// two banks always shows bank 1. Otherwise the low bits that the image has
/// banks for are kept, on carts of 64 banks or more the secondary register
/// supplies the upper bits, and the whole wraps to the banks of the image.
pub open spec fn v1_rom_bank(data: u8, secondary: int, banks: int) -> int {
    if data == 0 || banks == 2 {
        1
    } else {
        let low = data as int % (if banks < 32 { banks } else { 32 });
        let upper = if banks < 64 {
            0
        } else if banks == 64 {
            (secondary % 2) * 32
        } else {
            secondary * 32
        };
        (low + upper) % banks
    }
}

/// The ROM bank that the first variant maps at `0000..3FFF` after a write
/// to its mode register: on carts of 64 banks or more, mode 1 moves the
/// window by the secondary register.
pub open spec fn v1_zero_bank(mode: bool, secondary: int, banks: int, current: int) -> int {
    if banks <= 32 {
        current
    } else if !mode {
        0
    } else if banks == 64 {
        (secondary % 2) * 32
    } else {
        (secondary * 32) % banks
    }
}

/// The ROM bank that the second and third variant select: the register's
/// bits, at least 1, wrapped to the banks that the image has.
pub open spec fn plain_rom_bank(data: u8, width: int, banks: int) -> int {
    let wanted = data as int % width;
    (if wanted == 0 { 1 } else { wanted }) % banks
}

impl CartState {
    /// The invariant of every controller: the image holds whole banks, the
    /// selected banks exist, and the RAM has its full size.
    pub open spec fn wf(self) -> bool {
        &&& valid_bank_count(self.banks)
        &&& self.rom.len() == self.banks * 0x4000
        &&& 0 <= self.rom_bank < self.banks
        &&& 0 <= self.zero_bank < self.banks
        &&& self.ram.len() == ram_len(self.kind)
        &&& 0 <= self.ram_bank
        &&& self.kind == MbcKind::V1 ==> self.ram_bank < 4
        &&& self.kind == MbcKind::V2 ==> self.ram_bank == 0 && self.zero_bank == 0
        &&& self.kind == MbcKind::V3 ==> self.ram_bank < 8 && self.zero_bank == 0
    }

    /// The state of a controller right after construction.
    pub open spec fn initial(kind: MbcKind, banks: int, rom: Seq<u8>) -> CartState {
        CartState {
            kind,
            rom,
            ram: Seq::new(ram_len(kind) as nat, |i: int| 0u8),
            banks,
            rom_bank: 1,
            zero_bank: 0,
            ram_bank: 0,
            ram_enabled: true,
            mode: false,
        }
    }

    /// Where in the RAM the byte at bus address `address` lies.
    pub open spec fn ram_offset(self, address: int) -> int {
        match self.kind {
            MbcKind::V2 => address % 512,
            _ => self.ram_bank * 0x2000 + (address - 0xA000),
        }
    }

    /// The byte read at `address` of the ROM windows `0000..7FFF`.
    pub open spec fn read_rom(self, address: int) -> u8 {
        if address < 0x4000 {
            self.rom[self.zero_bank * 0x4000 + address]
        } else {
            self.rom[self.rom_bank * 0x4000 + (address - 0x4000)]
        }
    }

    /// The byte read at `address` of the RAM window `A000..BFFF`: `0xFF`
    /// while the RAM is disabled; the second variant holds nibbles.
    pub open spec fn read_ram(self, address: int) -> u8 {
        if !self.ram_enabled {
            0xFF
        } else if self.kind == MbcKind::V2 {
            self.ram[self.ram_offset(address)] % 16
        } else {
            self.ram[self.ram_offset(address)]
        }
    }

    /// The controller after a write to the RAM window: dropped while the
    /// RAM is disabled; the second variant keeps the low nibble only.
    pub open spec fn write_ram(self, address: int, data: u8) -> CartState {
        if !self.ram_enabled {
            self
        } else if self.kind == MbcKind::V2 {
            CartState { ram: self.ram.update(self.ram_offset(address), data % 16), ..self }
        } else {
            CartState { ram: self.ram.update(self.ram_offset(address), data), ..self }
        }
    }

    /// The controller after a write to the ROM windows, which changes no
    /// memory but the banking registers.
    pub open spec fn write_rom(self, address: int, data: u8) -> CartState {
        match self.kind {
            MbcKind::V1 => {
                if address < 0x2000 {
                    CartState { ram_enabled: enables_ram(data), ..self }
                } else if address < 0x4000 {
                    CartState { rom_bank: v1_rom_bank(data, self.ram_bank, self.banks), ..self }
                } else if address < 0x6000 {
                    CartState { ram_bank: data as int % 4, ..self }
                } else {
                    CartState {
                        mode: data % 2 == 1,
                        zero_bank: v1_zero_bank(data % 2 == 1, self.ram_bank, self.banks, self.zero_bank),
                        ..self
                    }
                }
            },
            MbcKind::V2 => {
                if (address / 256) % 2 == 0 {
                    CartState { ram_enabled: enables_ram(data), ..self }
                } else {
                    CartState { rom_bank: plain_rom_bank(data, 16, self.banks), ..self }
                }
            },
            MbcKind::V3 => {
                if address < 0x2000 {
                    CartState { ram_enabled: enables_ram(data), ..self }
                } else if address < 0x4000 {
                    CartState { rom_bank: plain_rom_bank(data, 128, self.banks), ..self }
                } else if address < 0x6000 {
                    if data <= 7 {
                        CartState { ram_bank: data as int, ..self }
                    } else {
                        self
                    }
                } else {
                    self
                }
            },
        }
    }
}

/// The capability that every controller variant offers.
pub trait MBC {
    /// What the controller holds.
    spec fn state(&self) -> CartState;

    /// Reads a byte of the ROM windows `0000..7FFF`.
    fn read_rom(&self, address: usize) -> (b: u8)
        requires
            self.state().wf(),
            address < 0x8000,
        ensures
            b == self.state().read_rom(address as int),
    ;

    /// Writes to the ROM windows, which sets a banking register.
    fn write_rom(&mut self, address: usize, data: u8)
        requires
            old(self).state().wf(),
            address < 0x8000,
        ensures
            final(self).state() == old(self).state().write_rom(address as int, data),
            final(self).state().wf(),
    ;

    /// Reads a byte of the RAM window `A000..BFFF`.
    fn read_ram(&self, address: usize) -> (b: u8)
        requires
            self.state().wf(),
            0xA000 <= address < 0xC000,
        ensures
            b == self.state().read_ram(address as int),
    ;

    /// Writes a byte to the RAM window `A000..BFFF`.
    fn write_ram(&mut self, address: usize, data: u8)
        requires
            old(self).state().wf(),
            0xA000 <= address < 0xC000,
        ensures
            final(self).state() == old(self).state().write_ram(address as int, data),
            final(self).state().wf(),
    ;
}

/// The first variant: a 5-bit bank register, a 2-bit secondary register
/// and a mode bit.
#[derive(Debug)]
pub struct MBC1 {
    rom_banks: Vec<u8>,
    high_bank_index: usize,
    zero_bank_index: usize,
    ram: Vec<u8>,
    ram_index: usize,
    ram_enabled: bool,
    mode: bool,
    total_rom_banks: usize,
}

impl MBC for MBC1 {
    closed spec fn state(&self) -> CartState {
        CartState {
            kind: MbcKind::V1,
            rom: self.rom_banks@,
            ram: self.ram@,
            banks: self.total_rom_banks as int,
            rom_bank: self.high_bank_index as int,
            zero_bank: self.zero_bank_index as int,
            ram_bank: self.ram_index as int,
            ram_enabled: self.ram_enabled,
            mode: self.mode,
        }
    }

    fn read_rom(&self, address: usize) -> (b: u8) {
        if address < 0x4000 {
            return self.rom_banks[address + self.zero_bank_index * ROM_BANK_SIZE];
        }
        let offset_address = (ROM_BANK_SIZE * self.high_bank_index) + (address % ROM_BANK_SIZE);
        self.rom_banks[offset_address]
    }

    fn write_rom(&mut self, address: usize, data: u8) {
        let banks = self.total_rom_banks;
        if address < 0x2000 {
            self.ram_enabled = data % 16 == 0x0A;
        } else if address < 0x4000 {
            if data == 0 || banks == 2 {
                self.high_bank_index = 1;
                return;
            }
            let low = (data as usize) % (if banks < 32 { banks } else { 32 });
            let upper = if banks < 64 {
                0
            } else if banks == 64 {
                (self.ram_index % 2) * 32
            } else {
                self.ram_index * 32
            };
            self.high_bank_index = (low + upper) % banks;
        } else if address < 0x6000 {
            self.ram_index = (data % 4) as usize;
        } else {
            let mode = data % 2 == 1;
            self.mode = mode;
            if banks <= 32 {
                return;
            }
            if !mode {
                self.zero_bank_index = 0;
            } else if banks == 64 {
                self.zero_bank_index = (self.ram_index % 2) * 32;
            } else {
                self.zero_bank_index = (self.ram_index * 32) % banks;
            }
        }
    }

    fn read_ram(&self, address: usize) -> (b: u8) {
        if !self.ram_enabled {
            return 0xFF;
        }
        let offset_address = address - RAM_WINDOW;
        self.ram[self.ram_index * RAM_BANK_SIZE + offset_address]
    }

    fn write_ram(&mut self, address: usize, data: u8) {
        if !self.ram_enabled {
            return;
        }
        let offset_address = address - RAM_WINDOW;
        let index = self.ram_index * RAM_BANK_SIZE + offset_address;
        self.ram[index] = data;
    }
}

/// The second variant: a 4-bit bank register and 512 nibbles of RAM.
#[derive(Debug)]
pub struct MBC2 {
    rom_banks: Vec<u8>,
    high_rom_index: usize,
    ram_enabled: bool,
    ram: Vec<u8>,
    total_rom_banks: usize,
}

impl MBC for MBC2 {
    closed spec fn state(&self) -> CartState {
        CartState {
            kind: MbcKind::V2,
            rom: self.rom_banks@,
            ram: self.ram@,
            banks: self.total_rom_banks as int,
            rom_bank: self.high_rom_index as int,
            zero_bank: 0,
            ram_bank: 0,
            ram_enabled: self.ram_enabled,
            mode: false,
        }
    }

    fn read_rom(&self, address: usize) -> (b: u8) {
        if address <= 0x3FFF {
            return self.rom_banks[address];
        }
        let rom_address = ROM_BANK_SIZE * self.high_rom_index + (address - 0x4000);
        self.rom_banks[rom_address]
    }

    fn write_rom(&mut self, address: usize, data: u8) {
        if (address / 256) % 2 == 0 {
            self.ram_enabled = data % 16 == 0x0A;
            return;
        }
        let wanted = (data % 16) as usize;
        self.high_rom_index = (if wanted == 0 { 1 } else { wanted }) % self.total_rom_banks;
    }

    fn read_ram(&self, address: usize) -> (b: u8) {
        if !self.ram_enabled {
            return 0xFF;
        }
        self.ram[address % 512] % 16
    }

    fn write_ram(&mut self, address: usize, data: u8) {
        if !self.ram_enabled {
            return;
        }
        let actual_address = address % 512;
        self.ram[actual_address] = data % 16;
    }
}

/// The third variant: a 7-bit bank register and eight RAM banks; its clock
/// is not modelled.
#[derive(Debug)]
pub struct MBC3 {
    rom: Vec<u8>,
    high_rom_index: usize,
    ram: Vec<u8>,
    ram_index: usize,
    ram_enabled: bool,
    total_rom_banks: usize,
}

impl MBC for MBC3 {
    closed spec fn state(&self) -> CartState {
        CartState {
            kind: MbcKind::V3,
            rom: self.rom@,
            ram: self.ram@,
            banks: self.total_rom_banks as int,
            rom_bank: self.high_rom_index as int,
            zero_bank: 0,
            ram_bank: self.ram_index as int,
            ram_enabled: self.ram_enabled,
            mode: false,
        }
    }

    fn read_rom(&self, address: usize) -> (b: u8) {
        if address <= 0x3FFF {
            return self.rom[address];
        }
        let actual_address = ROM_BANK_SIZE * self.high_rom_index + (address - 0x4000);
        self.rom[actual_address]
    }

    fn read_ram(&self, address: usize) -> (b: u8) {
        if !self.ram_enabled {
            return 0xFF;
        }
        let actual_address = (RAM_BANK_SIZE * self.ram_index) + (address - RAM_WINDOW);
        self.ram[actual_address]
    }

    fn write_rom(&mut self, address: usize, data: u8) {
        if address < 0x2000 {
            self.ram_enabled = data % 16 == 0x0A;
        } else if address < 0x4000 {
            let wanted = (data % 128) as usize;
            self.high_rom_index = (if wanted == 0 { 1 } else { wanted }) % self.total_rom_banks;
        } else if address < 0x6000 {
            if data <= 7 {
                self.ram_index = data as usize;
            }
        }
    }

    fn write_ram(&mut self, address: usize, data: u8) {
        if !self.ram_enabled {
            return;
        }
        let actual_address = RAM_BANK_SIZE * self.ram_index + (address - RAM_WINDOW);
        self.ram[actual_address] = data;
    }
}

/// A cartridge with whichever controller its header names.
#[derive(Debug)]
pub enum Cartridge {
    V1(MBC1),
    V2(MBC2),
    V3(MBC3),
}

impl MBC for Cartridge {
    open spec fn state(&self) -> CartState {
        match self {
            Cartridge::V1(m) => m.state(),
            Cartridge::V2(m) => m.state(),
            Cartridge::V3(m) => m.state(),
        }
    }

    fn read_rom(&self, address: usize) -> (b: u8) {
        match self {
            Cartridge::V1(m) => m.read_rom(address),
            Cartridge::V2(m) => m.read_rom(address),
            Cartridge::V3(m) => m.read_rom(address),
        }
    }

    fn write_rom(&mut self, address: usize, data: u8) {
        match self {
            Cartridge::V1(m) => m.write_rom(address, data),
            Cartridge::V2(m) => m.write_rom(address, data),
            Cartridge::V3(m) => m.write_rom(address, data),
        }
    }

    fn read_ram(&self, address: usize) -> (b: u8) {
        match self {
            Cartridge::V1(m) => m.read_ram(address),
            Cartridge::V2(m) => m.read_ram(address),
            Cartridge::V3(m) => m.read_ram(address),
        }
    }

    fn write_ram(&mut self, address: usize, data: u8) {
        match self {
            Cartridge::V1(m) => m.write_ram(address, data),
            Cartridge::V2(m) => m.write_ram(address, data),
            Cartridge::V3(m) => m.write_ram(address, data),
        }
    }
}

/// The number of banks that a size code declares.
pub fn bank_count(code: u8) -> (banks: Option<usize>)
    ensures
        banks.is_some() == banks_of_code(code).is_some(),
        banks.is_some() ==> banks.unwrap() == banks_of_code(code).unwrap() && valid_bank_count(
            banks.unwrap() as int,
        ),
{
    match code {
        0 => Some(2),
        1 => Some(4),
        2 => Some(8),
        3 => Some(16),
        4 => Some(32),
        5 => Some(64),
        6 => Some(128),
        7 => Some(256),
        8 => Some(512),
        0x52 => Some(72),
        0x53 => Some(80),
        0x54 => Some(96),
        _ => None,
    }
}

/// What `create_mbc` answers for an image: the fresh controller that the
/// header at `0x147` and `0x148` asks for, over the banks that it declares,
/// or nothing where the header cannot be read, names something unsupported,
/// or declares more than the image holds.
pub open spec fn cartridge_of(rom: Seq<u8>) -> Option<CartState> {
    if rom.len() < 0x150 {
        None
    } else {
        match (kind_of_code(rom[0x147]), banks_of_code(rom[0x148])) {
            (Some(kind), Some(banks)) => {
                if rom.len() < banks * 0x4000 {
                    None
                } else {
                    Some(CartState::initial(kind, banks, rom.subrange(0, banks * 0x4000)))
                }
            },
            _ => None,
        }
    }
}

/// Builds the controller that a cartridge image asks for.
pub fn create_mbc(rom: &Vec<u8>) -> (r: Result<Cartridge, CoreError>)
    ensures
        r.is_ok() == cartridge_of(rom@).is_some(),
        r.is_ok() ==> r.unwrap().state() == cartridge_of(rom@).unwrap() && r.unwrap().state().wf(),
        r.is_err() ==> r.unwrap_err() == CoreError::UnsupportedCartridge,
{
    if rom.len() < 0x150 {
        return Err(CoreError::UnsupportedCartridge);
    }
    let mbc_type_code = rom[0x147];
    let rom_size_code = rom[0x148];
    let rom_size = match bank_count(rom_size_code) {
        Some(n) => n,
        None => {
            return Err(CoreError::UnsupportedCartridge);
        },
    };
    if mbc_type_code > 0x13 || mbc_type_code == 0x04 || (0x07 <= mbc_type_code && mbc_type_code
        <= 0x0E) {
        return Err(CoreError::UnsupportedCartridge);
    }
    let rom_length = ROM_BANK_SIZE * rom_size;
    if rom.len() < rom_length {
        return Err(CoreError::UnsupportedCartridge);
    }
    let rom_bank = slice_to_vec(slice_subrange(rom.as_slice(), 0, rom_length));
    if mbc_type_code <= 0x03 {
        let ram_bank: Vec<u8> = vec![0u8; 0x8000];
        let m = MBC1 {
            rom_banks: rom_bank,
            total_rom_banks: rom_size,
            high_bank_index: 1,
            zero_bank_index: 0,
            ram: ram_bank,
            ram_index: 0,
            ram_enabled: true,
            mode: false,
        };
        assert(m.state().ram =~= CartState::initial(MbcKind::V1, rom_size as int, rom_bank@).ram);
        Ok(Cartridge::V1(m))
    } else if mbc_type_code <= 0x06 {
        let ram: Vec<u8> = vec![0u8; 512];
        let m = MBC2 {
            rom_banks: rom_bank,
            high_rom_index: 1,
            ram_enabled: true,
            ram,
            total_rom_banks: rom_size,
        };
        assert(m.state().ram =~= CartState::initial(MbcKind::V2, rom_size as int, rom_bank@).ram);
        Ok(Cartridge::V2(m))
    } else {
        let ram: Vec<u8> = vec![0u8; 0x10000];
        let m = MBC3 {
            rom: rom_bank,
            high_rom_index: 1,
            ram,
            ram_index: 0,
            ram_enabled: true,
            total_rom_banks: rom_size,
        };
        assert(m.state().ram =~= CartState::initial(MbcKind::V3, rom_size as int, rom_bank@).ram);
        Ok(Cartridge::V3(m))
    }
}

} // verus!
