//! The memory bus: the flat address space with its mirror, the register
//! side effects, the access blockers and the transfer into sprite memory.

use vstd::prelude::*;
use rand::Rng;
use crate::error::CoreError;
use crate::joypad::{joypad, joypad_byte, KeyState};
use crate::mbc::{cartridge_of, create_mbc, CartState, Cartridge, MBC};
use crate::tile::{pack_row, spec_pack_row};
use crate::util::{little_endian_combine, word_of, NINTENDO_LOGO};

verus! {

/// Size of the address space.
pub const ADDRESS_SPACE: usize = 0x10000;

/// The backing index of a bus address: the echo `E000..FDFF` falls onto the
/// work RAM `C000..DDFF` that it mirrors, every other address onto itself.
pub open spec fn spec_normalise(address: u16) -> int {
    if 0xE000 <= address <= 0xFDFF {
        address - 0x2000
    } else {
        address as int
    }
}

pub open spec fn spec_is_within_oam(index: usize) -> bool {
    0xFE00 <= index <= 0xFE9F
}

pub open spec fn spec_is_within_vram(index: usize) -> bool {
    0x8000 <= index <= 0x9FFF
}

pub open spec fn spec_is_within_rom(index: usize) -> bool {
    index <= 0x7FFF
}

pub open spec fn spec_is_within_ram(index: usize) -> bool {
    0xA000 <= index <= 0xBFFF
}

/// The value that each I/O register and the high RAM hold after the boot
/// program, by backing index from `FE00` on.
pub open spec fn boot_value(index: int) -> u8 {
    if index == 0xFF00 {
        0xFF
    } else if index == 0xFF02 {
        0x7E
    } else if index == 0xFF04 {
        0x18
    } else if index == 0xFF07 {
        0xF8
    } else if index == 0xFF0F {
        0xE1
    } else if index == 0xFF40 {
        0x91
    } else if index == 0xFF41 {
        0x81
    } else if index == 0xFF46 {
        0xFF
    } else {
        0
    }
}

/// An image with the logo written over its header bytes `0x104..0x134`;
/// an image too short to hold them is left as it is.
pub open spec fn with_logo(rom: Seq<u8>) -> Seq<u8> {
    if rom.len() < 0x134 {
        rom
    } else {
        Seq::new(rom.len(), |i: int| if 0x104 <= i < 0x134 { NINTENDO_LOGO@[i - 0x104] } else { rom[i] })
    }
}

/// What the bus holds.
pub struct BusState {
    /// One byte per address. The cartridge windows and the echo of the work
    /// RAM are never read from here.
    pub mem: Seq<u8>,
    pub cart: CartState,
    /// The low byte of the internal divider; the high byte is the register
    /// at `FF04`.
    pub div: u8,
    /// The level that the timer last saw on its divider tap.
    pub timer_level: bool,
    pub keys: KeyState,
}

impl BusState {
    pub open spec fn wf(self) -> bool {
        &&& self.mem.len() == 0x10000
        &&& self.cart.wf()
    }

    /// The bus after power-on with a given cartridge and the given bytes in
    /// its RAM below `FE00`; missing bytes are zero.
    pub open spec fn initial(cart: CartState, padding: Seq<u8>, booted: bool) -> BusState {
        BusState {
            mem: Seq::new(
                0x10000,
                |i: int|
                    if i < 0xFE00 {
                        if i < padding.len() {
                            padding[i]
                        } else {
                            0u8
                        }
                    } else if booted {
                        boot_value(i)
                    } else {
                        0u8
                    },
            ),
            cart,
            div: 0,
            timer_level: false,
            keys: KeyState::released(),
        }
    }

    /// The byte stored for an address outside the cartridge windows.
    pub open spec fn raw(self, address: u16) -> u8 {
        self.mem[spec_normalise(address)]
    }

    /// The mode bits of the status register of the picture processor.
    pub open spec fn stat_mode(self) -> int {
        self.mem[0xFF41] as int % 4
    }

    /// Whether the picture processor keeps the processor from an address:
    /// sprite memory in modes 2 and 3, video RAM in mode 3.
    pub open spec fn blocked(self, address: u16) -> bool {
        ||| spec_is_within_oam(address as usize) && (self.stat_mode() == 2 || self.stat_mode() == 3)
        ||| spec_is_within_vram(address as usize) && self.stat_mode() == 3
    }

    /// A read that no blocker and no register gets in the way of.
    pub open spec fn unchecked_read(self, address: u16) -> u8 {
        if spec_is_within_rom(address as usize) {
            self.cart.read_rom(address as int)
        } else if spec_is_within_ram(address as usize) {
            self.cart.read_ram(address as int)
        } else {
            self.raw(address)
        }
    }

    /// What the processor reads at an address.
    #[verifier::opaque]
    pub open spec fn read(self, address: u16) -> u8 {
        if spec_is_within_rom(address as usize) || spec_is_within_ram(address as usize) {
            self.unchecked_read(address)
        } else if address == 0xFF00 {
            joypad_byte(self.mem[0xFF00], self.keys)
        } else if self.blocked(address) {
            0xFF
        } else {
            self.raw(address)
        }
    }

    /// The word read at an address: low byte first.
    pub open spec fn read_word(self, address: u16) -> u16 {
        word_of(self.read(address.wrapping_add(1)), self.read(address))
    }

    /// The bus with one byte stored outside the cartridge windows.
    pub open spec fn store(self, address: u16, data: u8) -> BusState {
        BusState { mem: self.mem.update(spec_normalise(address), data), ..self }
    }

    /// A write without register side effects: the cartridge windows go to
    /// the controller, everything else is stored.
    pub open spec fn unchecked_write(self, address: u16, data: u8) -> BusState {
        if spec_is_within_rom(address as usize) {
            BusState { cart: self.cart.write_rom(address as int, data), ..self }
        } else if spec_is_within_ram(address as usize) {
            BusState { cart: self.cart.write_ram(address as int, data), ..self }
        } else {
            self.store(address, data)
        }
    }

    /// The bus after the 160 bytes from `source * 256` on were copied into
    /// sprite memory.
    pub open spec fn dma(self, source: u8) -> BusState {
        BusState {
            mem: Seq::new(
                0x10000,
                |k: int|
                    if 0xFE00 <= k < 0xFEA0 {
                        self.unchecked_read((source * 256 + (k - 0xFE00)) as u16)
                    } else {
                        self.mem[k]
                    },
            ),
            ..self
        }
    }

    /// The bus after the processor wrote a byte.
    #[verifier::opaque]
    pub open spec fn write(self, address: u16, data: u8) -> BusState {
        if spec_is_within_rom(address as usize) || spec_is_within_ram(address as usize) {
            self.unchecked_write(address, data)
        } else if address == 0xFF40 && data < 0x80 {
            BusState {
                mem: self.mem.update(0xFF40, data).update(
                    0xFF41,
                    (self.mem[0xFF41] - self.mem[0xFF41] % 4) as u8,
                ).update(0xFF44, 0),
                ..self
            }
        } else if address == 0xFF00 {
            BusState {
                mem: self.mem.update(0xFF00, ((data / 16) * 16 + self.mem[0xFF00] % 16) as u8),
                ..self
            }
        } else if address == 0xFF46 {
            self.dma(data)
        } else if address == 0xFF04 {
            BusState { mem: self.mem.update(0xFF04, 0), div: 0, ..self }
        } else {
            self.store(address, data)
        }
    }

    /// The bus after the processor wrote a word: low byte first.
    pub open spec fn write_word(self, address: u16, data: u16) -> BusState {
        self.write(address, (data % 256) as u8).write(address.wrapping_add(1), (data / 256) as u8)
    }

    /// The four bytes of sprite `index`.
    pub open spec fn oam_entry(self, index: int) -> Seq<u8> {
        self.mem.subrange(0xFE00 + index * 4, 0xFE00 + index * 4 + 4)
    }

    /// Row `i` of the tile stored from `address` on: two bytes, the low
    /// plane first.
    pub open spec fn tile_row(self, address: u16, i: int) -> u16 {
        spec_pack_row(
            self.raw(address.wrapping_add((2 * i) as u16)),
            self.raw(address.wrapping_add((2 * i + 1) as u16)),
        )
    }

    /// The eight packed rows of the tile stored from `address` on.
    pub open spec fn tile_rows(self, address: u16) -> Seq<u16> {
        Seq::new(8, |i: int| self.tile_row(address, i))
    }

    /// Where the data of the tile lies that the map entry at `address`
    /// names: counted from `8000` on, or, with the entry taken as signed,
    /// from `9000`.
    pub open spec fn bg_tile_address(self, address: u16, addressing: u16) -> u16 {
        let tile_index = self.raw(address);
        if addressing == 0x8000 || tile_index >= 128 {
            (0x8000 + tile_index * 16) as u16
        } else {
            (0x9000 + tile_index * 16) as u16
        }
    }
}

/// The mirror of the work RAM reads as the work RAM does.
pub proof fn lemma_mirror_reads_alike(bus: BusState, address: u16)
    requires
        0xC000 <= address <= 0xDDFF,
    ensures
        bus.read((address + 0x2000) as u16) == bus.read(address),
        bus.unchecked_read((address + 0x2000) as u16) == bus.unchecked_read(address),
{
    reveal(BusState::read);
}

/// After the transfer, sprite memory holds the 160 bytes that stood at the
/// source, and nothing else has changed.
pub proof fn lemma_dma_copies(bus: BusState, source: u8, i: int)
    requires
        bus.wf(),
        0 <= i < 0xA0,
    ensures
        bus.write(0xFF46, source).mem[0xFE00 + i] == bus.unchecked_read((source * 256 + i) as u16),
        bus.write(0xFF46, source).cart == bus.cart,
        bus.write(0xFF46, source).wf(),
{
    reveal(BusState::write);
}

/// The memory bus.
#[derive(Debug)]
pub struct Memory {
    mem: Vec<u8>,
    mbc: Cartridge,
    div: u8,
    timer_level: bool,
    keys: KeyState,
}

impl View for Memory {
    type V = BusState;

    closed spec fn view(&self) -> BusState {
        BusState {
            mem: self.mem@,
            cart: self.mbc.state(),
            div: self.div,
            timer_level: self.timer_level,
            keys: self.keys,
        }
    }
}

#[verifier::when_used_as_spec(spec_is_within_oam)]
pub fn is_within_oam(index: usize) -> (b: bool)
    ensures
        b == spec_is_within_oam(index),
{
    index >= 0xFE00 && index <= 0xFE9F
}

#[verifier::when_used_as_spec(spec_is_within_vram)]
pub fn is_within_vram(index: usize) -> (b: bool)
    ensures
        b == spec_is_within_vram(index),
{
    index >= 0x8000 && index <= 0x9FFF
}

#[verifier::when_used_as_spec(spec_is_within_rom)]
pub fn is_within_rom(index: usize) -> (b: bool)
    ensures
        b == spec_is_within_rom(index),
{
    index <= 0x7FFF
}

#[verifier::when_used_as_spec(spec_is_within_ram)]
pub fn is_within_ram(index: usize) -> (b: bool)
    ensures
        b == spec_is_within_ram(index),
{
    index >= 0xA000 && index <= 0xBFFF
}

/// The backing index of a bus address.
pub fn normalise(address: u16) -> (index: usize)
    ensures
        index == spec_normalise(address),
        index < 0x10000,
{
    if address >= 0xE000 && address <= 0xFDFF {
        (address - 0x2000) as usize
    } else {
        address as usize
    }
}

/// Bytes to fill the RAM with at power-on, left to chance as on the
/// machine: `amount` samples of the thread-local generator of `rand`,
/// `thread_rng`, taken through `Rng::sample_iter` with the `Standard`
/// distribution. Nothing is claimed of the bytes but their number: the
/// iterator of samples never ends, so `take` gets as many as it asks for.
/// The generator is seeded from the system when a thread first asks for it.
#[verifier::external_body]
fn random_padding(amount: usize) -> (bytes: Vec<u8>)
    ensures
        bytes@.len() == amount,
{
    rand::thread_rng().sample_iter(rand::distributions::Standard).take(amount).collect()
}

/// Writes the logo over the header bytes of an image that is long enough.
fn patch_logo(rom: &mut Vec<u8>)
    ensures
        final(rom)@ == with_logo(old(rom)@),
{
    if rom.len() < 0x134 {
        return;
    }
    let mut i: usize = 0;
    while i < 48
        invariant
            i <= 48,
            rom@.len() == old(rom)@.len(),
            rom@.len() >= 0x134,
            forall|k: int|
                0 <= k < rom@.len() ==> rom@[k] == (if 0x104 <= k < 0x104 + i {
                    NINTENDO_LOGO@[k - 0x104]
                } else {
                    old(rom)@[k]
                }),
        decreases 48 - i,
    {
        rom[0x104 + i] = NINTENDO_LOGO[i];
        i += 1;
    }
    assert(rom@ =~= with_logo(old(rom)@));
}

impl Memory {
    /// The invariant of the bus.
    pub open spec fn wf(&self) -> bool {
        self@.wf()
    }

    /// The image that the bus is built over: in booted mode the cartridge as
    /// it is, else the cartridge with the logo in its header.
    pub open spec fn image(rom: Seq<u8>, booted: bool) -> Seq<u8> {
        if booted {
            rom
        } else {
            with_logo(rom)
        }
    }

    /// Builds the bus over a cartridge image. In booted mode the registers
    /// hold what the boot program leaves behind; the RAM below `FE00` is
    /// filled by chance either way.
    pub fn new(rom: Vec<u8>, booted: bool) -> (r: Result<Self, CoreError>)
        ensures
            r.is_ok() == cartridge_of(Self::image(rom@, booted)).is_some(),
            r.is_err() ==> r.unwrap_err() == CoreError::UnsupportedCartridge,
            r.is_ok() ==> r.unwrap().wf() && exists|padding: Seq<u8>|
                padding.len() == 0xFE00 && r.unwrap()@ == #[trigger] BusState::initial(
                    cartridge_of(Self::image(rom@, booted)).unwrap(),
                    padding,
                    booted,
                ),
    {
        let padding = random_padding(0xFE00);
        Self::with_padding(rom, booted, padding)
    }

    /// Builds the bus over a cartridge image with the given bytes in its RAM
    /// below `FE00`; where `padding` is shorter, zeros follow.
    pub fn with_padding(rom: Vec<u8>, booted: bool, padding: Vec<u8>) -> (r: Result<Self, CoreError>)
        ensures
            r.is_ok() == cartridge_of(Self::image(rom@, booted)).is_some(),
            r.is_err() ==> r.unwrap_err() == CoreError::UnsupportedCartridge,
            r.is_ok() ==> r.unwrap().wf() && r.unwrap()@ == BusState::initial(
                cartridge_of(Self::image(rom@, booted)).unwrap(),
                padding@,
                booted,
            ),
    {
        let mut memory = match Self::new_unbooted(rom, booted, padding) {
            Ok(m) => m,
            Err(e) => {
                return Err(e);
            },
        };
        if !booted {
            return Ok(memory);
        }
        let ghost before = memory@;
        memory.mem[0xFF00] = 0xFF;
        memory.mem[0xFF02] = 0x7E;
        memory.mem[0xFF04] = 0x18;
        memory.mem[0xFF07] = 0xF8;
        memory.mem[0xFF0F] = 0xE1;
        memory.mem[0xFF40] = 0x91;
        memory.mem[0xFF41] = 0x81;
        memory.mem[0xFF44] = 0x00;
        memory.mem[0xFF46] = 0xFF;
        assert(memory@.mem =~= BusState::initial(before.cart, padding@, true).mem);
        Ok(memory)
    }

    /// The bus before any register is set: the padding below `FE00`, zeros
    /// above, and the controller that the image asks for.
    fn new_unbooted(rom: Vec<u8>, booted: bool, padding: Vec<u8>) -> (r: Result<Self, CoreError>)
        ensures
            r.is_ok() == cartridge_of(Self::image(rom@, booted)).is_some(),
            r.is_err() ==> r.unwrap_err() == CoreError::UnsupportedCartridge,
            r.is_ok() ==> r.unwrap().wf() && r.unwrap()@ == BusState::initial(
                cartridge_of(Self::image(rom@, booted)).unwrap(),
                padding@,
                false,
            ),
    {
        let mut rom = rom;
        if !booted {
            patch_logo(&mut rom);
        }
        let mbc = match create_mbc(&rom) {
            Ok(m) => m,
            Err(e) => {
                return Err(e);
            },
        };
        let mut memory: Vec<u8> = Vec::new();
        let mut i: usize = 0;
        while i < ADDRESS_SPACE
            invariant
                i <= ADDRESS_SPACE,
                memory@.len() == i,
                forall|k: int|
                    0 <= k < i ==> memory@[k] == (if k < 0xFE00 && k < padding@.len() {
                        padding@[k]
                    } else {
                        0u8
                    }),
            decreases ADDRESS_SPACE - i,
        {
            let byte: u8 = if i < 0xFE00 && i < padding.len() {
                padding[i]
            } else {
                0
            };
            memory.push(byte);
            i += 1;
        }
        let m = Memory { mem: memory, div: 0, mbc, timer_level: false, keys: KeyState::default() };
        assert(m@.mem =~= BusState::initial(m@.cart, padding@, false).mem);
        Ok(m)
    }

    /// Tells the bus which keys are held.
    pub fn set_keys(&mut self, keys: KeyState)
        ensures
            final(self)@ == (BusState { keys, ..old(self)@ }),
    {
        self.keys = keys;
    }

    /// The low byte of the internal divider.
    pub fn div(&self) -> (d: u8)
        ensures
            d == self@.div,
    {
        self.div
    }

    /// Sets the low byte of the internal divider.
    pub fn set_div(&mut self, div: u8)
        ensures
            final(self)@ == (BusState { div, ..old(self)@ }),
    {
        self.div = div;
    }

    /// The level that the timer last saw on its divider tap.
    pub fn timer_level(&self) -> (level: bool)
        ensures
            level == self@.timer_level,
    {
        self.timer_level
    }

    /// Records the level that the timer sees on its divider tap.
    pub fn set_timer_level(&mut self, level: bool)
        ensures
            final(self)@ == (BusState { timer_level: level, ..old(self)@ }),
    {
        self.timer_level = level;
    }

    /// Stores a byte outside the cartridge windows, with no side effect.
    fn store(&mut self, address: u16, data: u8)
        requires
            old(self).wf(),
        ensures
            final(self)@ == old(self)@.store(address, data),
            final(self).wf(),
    {
        let index = normalise(address);
        self.mem[index] = data;
    }

    /// The processor writes a byte. The cartridge windows go to the
    /// controller. Switching the display off also clears the mode bits of
    /// the status register and the line counter; the joypad register takes
    /// the upper nibble only; `FF46` starts the transfer into sprite memory;
    /// any write to `FF04` clears the whole divider.
    #[verifier::rlimit(40)]
    pub fn write(&mut self, address: u16, data: u8)
        requires
            old(self).wf(),
        ensures
            final(self)@ == old(self)@.write(address, data),
            final(self).wf(),
    {
        reveal(BusState::write);
        let index = address as usize;
        if is_within_rom(index) {
            self.mbc.write_rom(index, data);
            return;
        }
        if is_within_ram(index) {
            self.mbc.write_ram(index, data);
            return;
        }
        if address == 0xFF40 && data < 0x80 {
            let stat = self.mem[0xFF41];
            self.mem[0xFF40] = data;
            self.mem[0xFF41] = stat - stat % 4;
            self.mem[0xFF44] = 0;
            return;
        }
        if address == 0xFF00 {
            let current = self.mem[0xFF00];
            self.mem[0xFF00] = (data / 16) * 16 + current % 16;
            return;
        }
        if address == 0xFF46 {
            process_dma(self, data);
            return;
        }
        if address == 0xFF04 {
            self.div = 0;
            self.mem[0xFF04] = 0x00;
            return;
        }
        self.store(address, data);
    }

    /// The processor writes a word, low byte first.
    pub fn write_word(&mut self, address: u16, data: u16)
        requires
            old(self).wf(),
        ensures
            final(self)@ == old(self)@.write_word(address, data),
            final(self).wf(),
    {
        self.write(address, (data % 256) as u8);
        self.write(address.wrapping_add(1), (data / 256) as u8);
    }

    /// A write without register side effects, for the subsystems' own
    /// bookkeeping.
    pub fn unchecked_write(&mut self, address: u16, data: u8)
        requires
            old(self).wf(),
        ensures
            final(self)@ == old(self)@.unchecked_write(address, data),
            final(self).wf(),
    {
        let index = address as usize;
        if is_within_rom(index) {
            self.mbc.write_rom(index, data);
        } else if is_within_ram(index) {
            self.mbc.write_ram(index, data);
        } else {
            self.store(address, data);
        }
    }

    /// A read that bypasses the blockers and the joypad synthesis.
    pub fn unchecked_read(&self, address: u16) -> (b: u8)
        requires
            self.wf(),
        ensures
            b == self@.unchecked_read(address),
    {
        let index = address as usize;
        if is_within_rom(index) {
            self.mbc.read_rom(index)
        } else if is_within_ram(index) {
            self.mbc.read_ram(index)
        } else {
            self.mem[normalise(address)]
        }
    }

    /// The processor reads a byte. Sprite memory reads `0xFF` in modes 2 and
    /// 3 of the picture processor, video RAM in mode 3; the joypad register
    /// is put together from its select bits and the keys.
    pub fn read(&self, address: u16) -> (b: u8)
        requires
            self.wf(),
        ensures
            b == self@.read(address),
    {
        reveal(BusState::read);
        let index = address as usize;
        if is_within_rom(index) {
            return self.mbc.read_rom(index);
        }
        if is_within_ram(index) {
            return self.mbc.read_ram(index);
        }
        if address == 0xFF00 {
            return joypad(self.mem[0xFF00], &self.keys);
        }
        let blocker = self.mem[0xFF41] % 4;
        if is_within_oam(index) && (blocker == 2 || blocker == 3) {
            return 0xFF;
        }
        if is_within_vram(index) && blocker == 3 {
            return 0xFF;
        }
        self.mem[normalise(address)]
    }

    /// The processor reads a word, low byte first.
    pub fn read_word(&self, address: u16) -> (w: u16)
        requires
            self.wf(),
        ensures
            w == self@.read_word(address),
    {
        little_endian_combine(self.read(address), self.read(address.wrapping_add(1)))
    }

    /// The four bytes of a sprite: Y, X, tile index and attributes.
    pub fn oam_search(&self, index: u8) -> (entry: [u8; 4])
        requires
            self.wf(),
            index < 40,
        ensures
            entry@ == self@.oam_entry(index as int),
    {
        let start: usize = 0xFE00 + (index as usize * 4);
        let entry = [self.mem[start], self.mem[start + 1], self.mem[start + 2], self.mem[start + 3]];
        assert(entry@ =~= self@.oam_entry(index as int));
        entry
    }

    /// The tile that a map entry names, under one of the two addressing
    /// modes, `0x8000` or `0x8800`.
    pub fn read_bg_tile(&self, address: u16, addressing: u16) -> (rows: [u16; 8])
        requires
            self.wf(),
            addressing == 0x8000 || addressing == 0x8800,
        ensures
            rows@ == self@.tile_rows(self@.bg_tile_address(address, addressing)),
    {
        let tile_index = self.mem[normalise(address)];
        let tile_address: u16 = if addressing == 0x8000 || tile_index >= 128 {
            0x8000 + (tile_index as u16) * 16
        } else {
            0x9000 + (tile_index as u16) * 16
        };
        self.read_tile(tile_address)
    }

    /// The eight rows of the tile stored from `address` on, each packed
    /// into one word.
    pub fn read_tile(&self, address: u16) -> (rows: [u16; 8])
        requires
            self.wf(),
        ensures
            rows@ == self@.tile_rows(address),
    {
        let r0 = self.read_tile_row(address, 0);
        let r1 = self.read_tile_row(address, 1);
        let r2 = self.read_tile_row(address, 2);
        let r3 = self.read_tile_row(address, 3);
        let r4 = self.read_tile_row(address, 4);
        let r5 = self.read_tile_row(address, 5);
        let r6 = self.read_tile_row(address, 6);
        let r7 = self.read_tile_row(address, 7);
        let rows = [r0, r1, r2, r3, r4, r5, r6, r7];
        assert(rows@.len() == 8);
        assert(rows@[0] == r0 && rows@[1] == r1 && rows@[2] == r2 && rows@[3] == r3);
        assert(rows@[4] == r4 && rows@[5] == r5 && rows@[6] == r6 && rows@[7] == r7);
        assert(rows@ =~= self@.tile_rows(address));
        rows
    }

    /// Row `i` of the tile stored from `address` on.
    fn read_tile_row(&self, address: u16, i: u16) -> (row: u16)
        requires
            self.wf(),
            i < 8,
        ensures
            row == self@.tile_row(address, i as int),
    {
        let low_data = self.mem[normalise(address.wrapping_add(2 * i))];
        let high_data = self.mem[normalise(address.wrapping_add(2 * i + 1))];
        pack_row(low_data, high_data)
    }
}

/// Copies the 160 bytes from `address * 256` on into sprite memory.
pub fn process_dma(mem: &mut Memory, address: u8)
    requires
        old(mem).wf(),
    ensures
        final(mem)@ == old(mem)@.dma(address),
        final(mem).wf(),
{
    let base: u16 = (address as u16) * 256;
    let mut i: u16 = 0;
    while i < 0xA0
        invariant
            i <= 0xA0,
            base == address * 256,
            mem.wf(),
            mem@.cart == old(mem)@.cart,
            mem@.div == old(mem)@.div,
            mem@.timer_level == old(mem)@.timer_level,
            mem@.keys == old(mem)@.keys,
            forall|k: int|
                0 <= k < 0x10000 ==> mem@.mem[k] == (if 0xFE00 <= k < 0xFE00 + i {
                    old(mem)@.unchecked_read((base + (k - 0xFE00)) as u16)
                } else {
                    old(mem)@.mem[k]
                }),
        decreases 0xA0 - i,
    {
        let byte = mem.unchecked_read(base + i);
        mem.mem[0xFE00 + i as usize] = byte;
        i += 1;
    }
    assert(mem@.mem =~= old(mem)@.dma(address).mem);
}

} // verus!
