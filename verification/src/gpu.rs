//! The picture processor: a mode machine driven by dots, which emits one
//! line of 160 shades at the end of each drawing period.

use vstd::prelude::*;
use crate::memory::{BusState, Memory};
use crate::tile::{get_individual_pixels, row_pixel, row_pixels};
use crate::util::{
    spec_test_bit, spec_with_bit, test_bit, with_bit, PpuRegisters, DRAW_CYCLES, HBLANK_CYCLES,
    INTERRUPT_F_ADDRESS, OAM_CYCLES, STAT_HBLANK, STAT_OAM, STAT_VBLANK,
};

verus! {

/// Marks a place of a layer where the layer shows nothing.
pub const BLANK_PIXEL: u8 = 4;

/// Pixels in a line.
pub const LINE_WIDTH: usize = 160;

/// The shade that a palette register gives to a colour index.
pub open spec fn shade(index: u8, palette: u8) -> u8 {
    if index == 0 {
        palette % 4
    } else if index == 1 {
        (palette / 4) % 4
    } else if index == 2 {
        (palette / 16) % 4
    } else {
        palette / 64
    }
}

/// A colour index seen through a palette; the blank mark passes unchanged.
pub open spec fn spec_to_palette(index: u8, palette: u8) -> u8 {
    if index == BLANK_PIXEL {
        index
    } else {
        shade(index, palette)
    }
}

/// Resolves a colour index through a palette register.
#[verifier::when_used_as_spec(spec_to_palette)]
pub fn to_palette(index: u8, palette: u8) -> (r: u8)
    requires
        index <= 4,
    ensures
        r == spec_to_palette(index, palette),
        index < 4 ==> r < 4,
{
    match index {
        0 => palette % 4,
        1 => (palette / 4) % 4,
        2 => (palette / 16) % 4,
        3 => palette / 64,
        _ => index,
    }
}

/// The bus after the status register took a new mode. Where
/// `interrupt_index` names an enable bit of the status register that is
/// set, the status interrupt is requested; entering mode 1 also requests
/// the vertical-blank interrupt. Index 0 and mode 3 request nothing.
#[verifier::opaque]
pub open spec fn stat_updated(bus: BusState, interrupt_index: u8, mode: u8) -> BusState {
    let stat = (bus.mem[0xFF41] - bus.mem[0xFF41] % 4 + mode) as u8;
    let stored = bus.write(0xFF41, stat);
    if interrupt_index == 0 || mode == 3 {
        stored
    } else {
        let requested = if spec_test_bit(stat, interrupt_index) {
            stored.write(INTERRUPT_F_ADDRESS, spec_with_bit(stored.mem[0xFF0F], 1, true))
        } else {
            stored
        };
        if mode == 1 {
            requested.write(INTERRUPT_F_ADDRESS, spec_with_bit(requested.mem[0xFF0F], 0, true))
        } else {
            requested
        }
    }
}

/// Stores a new mode in the status register and requests the interrupts
/// that go with it.
pub fn stat_interrupt(mem: &mut Memory, interrupt_index: u8, mode: u8)
    requires
        old(mem).wf(),
        interrupt_index < 8,
        mode < 4,
    ensures
        final(mem)@ == stat_updated(old(mem)@, interrupt_index, mode),
        final(mem).wf(),
{
    reveal(stat_updated);
    let mut stat = mem.unchecked_read(PpuRegisters::STAT.address());
    stat = stat - stat % 4 + mode;
    mem.write(PpuRegisters::STAT.address(), stat);
    if interrupt_index == 0 || mode == 3 {
        return;
    }
    if test_bit(stat, interrupt_index) {
        let interrupt_flag = mem.unchecked_read(INTERRUPT_F_ADDRESS);
        mem.write(INTERRUPT_F_ADDRESS, with_bit(interrupt_flag, 1, true));
    }
    if mode == 1 {
        let i_flag = mem.unchecked_read(INTERRUPT_F_ADDRESS);
        mem.write(INTERRUPT_F_ADDRESS, with_bit(i_flag, 0, true));
    }
}

/// The modes of the picture processor.
#[derive(Debug, Clone, Copy, PartialEq, Eq, Structural)]
pub enum PpuState {
    Oam,
    HBlank,
    VBlank,
    Drawing,
}

/// The picture processor: its mode, the dots counted since the line (or
/// the vertical blank) began, and the line counter of the window.
#[derive(Debug, Clone, Copy, PartialEq, Eq, Structural)]
pub struct Ppu {
    pub ticks: usize,
    pub state: PpuState,
    pub window_line: usize,
}

impl Ppu {
    /// The invariant of the picture processor: the window's line counter
    /// is a byte, and the dots stay below what a mode can have counted when
    /// a step begins.
    pub open spec fn wf(self) -> bool {
        &&& self.window_line < 256
        &&& match self.state {
            PpuState::Oam => self.ticks < 80,
            PpuState::Drawing => self.ticks < 335,
            PpuState::HBlank => self.ticks < 590,
            PpuState::VBlank => self.ticks < 4560,
        }
    }

    /// The picture processor at the start of a frame.
    pub open spec fn initial() -> Ppu {
        Ppu { ticks: 0, state: PpuState::Oam, window_line: 0 }
    }

    /// Whether the picture processor is in a state that a step can start
    /// from.
    pub fn is_valid(&self) -> (b: bool)
        ensures
            b == self.wf(),
    {
        self.window_line < 256 && match self.state {
            PpuState::Oam => self.ticks < 80,
            PpuState::Drawing => self.ticks < 335,
            PpuState::HBlank => self.ticks < 590,
            PpuState::VBlank => self.ticks < 4560,
        }
    }

    /// The picture processor at the start of a frame: sprite search, dot 0,
    /// window line 0.
    pub fn default() -> (ppu: Self)
        ensures
            ppu == Ppu::initial(),
            ppu.wf(),
    {
        Self { ticks: 0, state: PpuState::Oam, window_line: 0 }
    }

    /// Starts a new line: back to the sprite search at dot 0. The line
    /// counter of the window is kept.
    pub fn line_reset(&mut self)
        ensures
            *final(self) == (Ppu { ticks: 0, state: PpuState::Oam, window_line: old(self).window_line }),
    {
        self.state = PpuState::Oam;
        self.ticks = 0;
    }
}

/// Where the tile map of the background lies: bit 3 of the control register.
pub open spec fn background_map(lcdc: u8) -> u16 {
    if spec_test_bit(lcdc, 3) {
        0x9C00
    } else {
        0x9800
    }
}

/// Where the tile map of the window lies: bit 6 of the control register.
pub open spec fn window_map(lcdc: u8) -> u16 {
    if spec_test_bit(lcdc, 6) {
        0x9C00
    } else {
        0x9800
    }
}

/// How map entries name their tiles: bit 4 of the control register.
pub open spec fn tile_addressing(lcdc: u8) -> u16 {
    if spec_test_bit(lcdc, 4) {
        0x8000
    } else {
        0x8800
    }
}

/// The colour at column `x`, row `y` of a tile map of 32 by 32 tiles.
pub open spec fn map_pixel(bus: BusState, map: u16, addressing: u16, x: int, y: int) -> u8 {
    let entry = (map + (y / 8) * 32 + x / 8) as u16;
    row_pixel(bus.tile_row(bus.bg_tile_address(entry, addressing), y % 8), x % 8)
}

/// The background at screen column `x` of line `ly`: the map, scrolled by
/// SCX and SCY and wrapping around, or blank where bit 0 of the control
/// register switches the background off.
pub open spec fn background_pixel(bus: BusState, lcdc: u8, ly: u8, x: int) -> u8 {
    if !spec_test_bit(lcdc, 0) {
        BLANK_PIXEL
    } else {
        map_pixel(
            bus,
            background_map(lcdc),
            tile_addressing(lcdc),
            (bus.mem[0xFF43] + x) % 256,
            (ly + bus.mem[0xFF42]) % 256,
        )
    }
}

/// The background layer of line `ly`.
pub open spec fn background_line(bus: BusState, lcdc: u8, ly: u8) -> Seq<u8> {
    Seq::new(160, |x: int| background_pixel(bus, lcdc, ly, x))
}

/// A layer that shows nothing.
pub open spec fn blank_line() -> Seq<u8> {
    Seq::new(160, |x: int| BLANK_PIXEL)
}

/// A line of blank marks.
pub fn blank_layer() -> (v: Vec<u8>)
    ensures
        v@ == blank_line(),
{
    let v = vec![BLANK_PIXEL; LINE_WIDTH];
    assert(v@ =~= blank_line());
    v
}

/// The eight colours of row `y % 8` of the tile that stands at column
/// `column` of row `y / 8` of a tile map.
fn map_tile_row(mem: &Memory, map: u16, addressing: u16, column: u16, y: u8) -> (pixels: Vec<u8>)
    requires
        mem.wf(),
        map == 0x9800 || map == 0x9C00,
        addressing == 0x8000 || addressing == 0x8800,
        column < 32,
    ensures
        pixels@.len() == 8,
        forall|k: int|
            0 <= k < 8 ==> #[trigger] pixels@[k] == map_pixel(mem@, map, addressing, column * 8 + k, y as int),
        forall|k: int| 0 <= k < 8 ==> #[trigger] pixels@[k] < 4,
{
    let entry: u16 = map + ((y / 8) as u16) * 32 + column;
    let tile = mem.read_bg_tile(entry, addressing);
    let tile_row_data = tile[(y % 8) as usize];
    let pixels = get_individual_pixels(tile_row_data);
    assert forall|k: int| 0 <= k < 8 implies #[trigger] pixels@[k] == map_pixel(
        mem@,
        map,
        addressing,
        column * 8 + k,
        y as int,
    ) by {
        assert((column * 8 + k) / 8 == column);
        assert((column * 8 + k) % 8 == k);
    }
    pixels
}

/// The number of screen columns that lie before position `position` of a
/// layer that is shifted left by `shift`.
pub open spec fn columns_before(position: int, shift: int) -> int {
    if position <= shift {
        0
    } else if position - shift >= 160 {
        160
    } else {
        position - shift
    }
}

/// Appends those of the eight pixels of a tile that fall onto the screen.
/// Pixel `k` stands at position `start + k` of its layer, which the screen
/// shows from position `shift` on.
fn push_visible(layer: &mut Vec<u8>, pixels: &Vec<u8>, start: u16, shift: u16)
    requires
        pixels@.len() == 8,
        start <= 1000,
        shift <= 1000,
        old(layer)@.len() == columns_before(start as int, shift as int),
    ensures
        final(layer)@.len() == columns_before(start + 8, shift as int),
        forall|x: int| 0 <= x < old(layer)@.len() ==> final(layer)@[x] == old(layer)@[x],
        forall|x: int|
            old(layer)@.len() <= x < final(layer)@.len() ==> final(layer)@[x] == pixels@[x + shift
                - start],
{
    let mut k: u16 = 0;
    while k < 8
        invariant
            k <= 8,
            pixels@.len() == 8,
            start <= 1000,
            shift <= 1000,
            old(layer)@.len() == columns_before(start as int, shift as int),
            layer@.len() == columns_before(start + k, shift as int),
            forall|x: int| 0 <= x < old(layer)@.len() ==> layer@[x] == old(layer)@[x],
            forall|x: int|
                old(layer)@.len() <= x < layer@.len() ==> layer@[x] == pixels@[x + shift - start],
        decreases 8 - k,
    {
        let position = start + k;
        if position >= shift && position - shift < 160 {
            layer.push(pixels[k as usize]);
        }
        k += 1;
    }
}

/// The column of the map that pixel `k` of the tile `tile` tiles to the
/// right of the scroll position shows, wrapping at 256.
proof fn lemma_scrolled_column(scx: int, tile: int, k: int)
    requires
        0 <= scx < 256,
        0 <= tile < 21,
        0 <= k < 8,
    ensures
        (scx + (tile * 8 + k - scx % 8)) % 256 == ((scx / 8 + tile) % 32) * 8 + k,
{
    let whole = scx / 8 + tile;
    assert(scx + (tile * 8 + k - scx % 8) == whole * 8 + k);
    if whole >= 32 {
        assert(whole % 32 == whole - 32);
        assert((whole * 8 + k) % 256 == (whole - 32) * 8 + k);
    } else {
        assert(whole % 32 == whole);
    }
}

/// Draws the background layer of line `ly`.
pub fn draw_background(mem: &Memory, lcdc: u8, ly: u8) -> (layer: Vec<u8>)
    requires
        mem.wf(),
    ensures
        layer@ == background_line(mem@, lcdc, ly),
{
    if !test_bit(lcdc, 0) {
        let layer = blank_layer();
        assert(layer@ =~= background_line(mem@, lcdc, ly));
        return layer;
    }
    let mut background_pixels: Vec<u8> = Vec::new();
    let map_address: u16 = if test_bit(lcdc, 3) { 0x9C00 } else { 0x9800 };
    let addressing: u16 = if test_bit(lcdc, 4) { 0x8000 } else { 0x8800 };
    let map_line = ly.wrapping_add(mem.unchecked_read(PpuRegisters::SCY.address()));
    let scx = mem.unchecked_read(PpuRegisters::SCX.address()) as u16;
    let skip = scx % 8;
    let mut tile_number: u16 = 0;
    while tile_number < 21
        invariant
            mem.wf(),
            tile_number <= 21,
            spec_test_bit(lcdc, 0),
            map_address == background_map(lcdc),
            addressing == tile_addressing(lcdc),
            map_line as int == (ly + mem@.mem[0xFF42]) % 256,
            scx == mem@.mem[0xFF43],
            skip == scx % 8,
            background_pixels@.len() == columns_before(tile_number * 8, skip as int),
            forall|x: int|
                0 <= x < background_pixels@.len() ==> background_pixels@[x] == background_pixel(
                    mem@,
                    lcdc,
                    ly,
                    x,
                ),
        decreases 21 - tile_number,
    {
        let column = (scx / 8 + tile_number) % 32;
        let pixels = map_tile_row(mem, map_address, addressing, column, map_line);
        let ghost before = background_pixels@;
        push_visible(&mut background_pixels, &pixels, tile_number * 8, skip);
        assert forall|x: int| before.len() <= x < background_pixels@.len() implies background_pixels@[x]
            == background_pixel(mem@, lcdc, ly, x) by {
            let k = x + skip - tile_number * 8;
            assert(0 <= k < 8);
            lemma_scrolled_column(scx as int, tile_number as int, k);
            assert(background_pixels@[x] == pixels@[k]);
            assert(pixels@[k] == map_pixel(mem@, map_address, addressing, column * 8 + k, map_line as int));
        }
        tile_number += 1;
    }
    assert(background_pixels@ =~= background_line(mem@, lcdc, ly));
    background_pixels
}

/// Whether the window shows on line `ly`: background and window are
/// switched on, the line is at or below WY, and WX leaves at least one
/// column on the screen.
pub open spec fn window_shown(bus: BusState, lcdc: u8, ly: u8) -> bool {
    &&& spec_test_bit(lcdc, 0)
    &&& spec_test_bit(lcdc, 5)
    &&& bus.mem[0xFF4A] <= ly
    &&& bus.mem[0xFF4B] <= 166
}

/// The window at screen column `x`, drawn from line `line` of its map: it
/// starts at column `WX - 7` and does not scroll.
pub open spec fn window_pixel(bus: BusState, lcdc: u8, line: int, x: int) -> u8 {
    if x + 7 < bus.mem[0xFF4B] {
        BLANK_PIXEL
    } else {
        map_pixel(bus, window_map(lcdc), tile_addressing(lcdc), x + 7 - bus.mem[0xFF4B], line)
    }
}

/// The window layer of line `ly`, drawn from line `line` of its map.
pub open spec fn window_layer(bus: BusState, lcdc: u8, ly: u8, line: int) -> Seq<u8> {
    if window_shown(bus, lcdc, ly) {
        Seq::new(160, |x: int| window_pixel(bus, lcdc, line, x))
    } else {
        blank_line()
    }
}

/// The line counter of the window after line `ly`: it moves on only where
/// the window was drawn.
pub open spec fn window_line_after(bus: BusState, lcdc: u8, ly: u8, line: usize) -> usize {
    if window_shown(bus, lcdc, ly) {
        ((line + 1) % 256) as usize
    } else {
        line
    }
}

/// With background and window switched on and WX on the screen, the window
/// shows on the line that WY names, from column `WX - 7` on, and on no line
/// above it.
pub proof fn lemma_window_starts_at_wy(bus: BusState, lcdc: u8, ly: u8, line: int, x: int)
    requires
        spec_test_bit(lcdc, 0),
        spec_test_bit(lcdc, 5),
        bus.mem[0xFF4B] <= 166,
        0 <= x < 160,
    ensures
        bus.mem[0xFF4A] == ly ==> window_shown(bus, lcdc, ly),
        bus.mem[0xFF4A] == ly && x + 7 >= bus.mem[0xFF4B] ==> window_layer(bus, lcdc, ly, line)[x] < 4,
        bus.mem[0xFF4A] > ly ==> window_layer(bus, lcdc, ly, line) == blank_line(),
        bus.mem[0xFF4A] > ly ==> window_layer(bus, lcdc, ly, line)[x] == BLANK_PIXEL,
{
}

/// Draws the window layer of line `ly` and moves the window's own line
/// counter on if the window shows on this line.
pub fn draw_window(ppu: &mut Ppu, mem: &Memory, lcdc: u8, ly: u8) -> (layer: Vec<u8>)
    requires
        mem.wf(),
        old(ppu).window_line < 256,
    ensures
        layer@ == window_layer(mem@, lcdc, ly, old(ppu).window_line as int),
        *final(ppu) == (Ppu {
            window_line: window_line_after(mem@, lcdc, ly, old(ppu).window_line),
            ..*old(ppu)
        }),
        final(ppu).window_line < 256,
{
    if !test_bit(lcdc, 0) || !test_bit(lcdc, 5) {
        return blank_layer();
    }
    let wy = mem.unchecked_read(PpuRegisters::WY.address());
    let wx = mem.unchecked_read(PpuRegisters::WX.address()) as u16;
    if wy > ly || wx > 166 {
        return blank_layer();
    }
    let map_address: u16 = if test_bit(lcdc, 6) { 0x9C00 } else { 0x9800 };
    let addressing: u16 = if test_bit(lcdc, 4) { 0x8000 } else { 0x8800 };
    let layer_shown: u8 = ppu.window_line as u8;
    ppu.window_line = (ppu.window_line + 1) % 256;
    let mut window_pixels: Vec<u8> = Vec::new();
    let mut blanks: u16 = 7;
    while blanks < wx
        invariant
            mem.wf(),
            7 <= blanks,
            wx >= 7 ==> blanks <= wx,
            wx < 7 ==> blanks == 7,
            wx <= 166,
            wx == mem@.mem[0xFF4B],
            window_pixels@.len() == blanks - 7,
            forall|x: int|
                0 <= x < window_pixels@.len() ==> window_pixels@[x] == window_pixel(
                    mem@,
                    lcdc,
                    layer_shown as int,
                    x,
                ),
        decreases wx - blanks,
    {
        window_pixels.push(BLANK_PIXEL);
        blanks += 1;
    }
    let mut tile_number: u16 = 0;
    while tile_number < 21
        invariant
            mem.wf(),
            tile_number <= 21,
            wx <= 166,
            wx == mem@.mem[0xFF4B],
            map_address == window_map(lcdc),
            addressing == tile_addressing(lcdc),
            window_pixels@.len() == columns_before(wx + tile_number * 8, 7),
            forall|x: int|
                0 <= x < window_pixels@.len() ==> window_pixels@[x] == window_pixel(
                    mem@,
                    lcdc,
                    layer_shown as int,
                    x,
                ),
        decreases 21 - tile_number,
    {
        let pixels = map_tile_row(mem, map_address, addressing, tile_number, layer_shown);
        let ghost before = window_pixels@;
        push_visible(&mut window_pixels, &pixels, wx + tile_number * 8, 7);
        assert forall|x: int| before.len() <= x < window_pixels@.len() implies window_pixels@[x]
            == window_pixel(mem@, lcdc, layer_shown as int, x) by {
            let k = x + 7 - (wx + tile_number * 8);
            assert(0 <= k < 8);
            assert(x + 7 - wx == tile_number * 8 + k);
            assert(window_pixels@[x] == pixels@[k]);
        }
        tile_number += 1;
    }
    assert(window_pixels@ =~= window_layer(mem@, lcdc, ly, layer_shown as int));
    window_pixels
}

/// The height of every sprite: 16 lines if bit 2 of the control register
/// is set, else 8.
pub open spec fn sprite_height(lcdc: u8) -> int {
    if spec_test_bit(lcdc, 2) {
        16
    } else {
        8
    }
}

/// Byte `field` of sprite `index`: 0 is Y plus 16, 1 is X plus 8, 2 the
/// tile, 3 the attributes.
pub open spec fn sprite_byte(bus: BusState, index: u8, field: int) -> u8 {
    bus.mem[0xFE00 + index * 4 + field]
}

/// Whether sprite `index` covers line `ly`, wherever it stands across.
pub open spec fn sprite_on_line(bus: BusState, index: u8, lcdc: u8, ly: u8) -> bool {
    sprite_byte(bus, index, 0) <= ly + 16 < sprite_byte(bus, index, 0) + sprite_height(lcdc)
}

/// The search through the first `n` sprites: those that cover the line, in
/// the order of the table, and no more than ten of them.
pub open spec fn scanned(bus: BusState, lcdc: u8, ly: u8, n: int) -> Seq<u8>
    decreases n,
{
    if n <= 0 {
        Seq::empty()
    } else {
        let found = scanned(bus, lcdc, ly, n - 1);
        if found.len() < 10 && sprite_on_line(bus, (n - 1) as u8, lcdc, ly) {
            found.push((n - 1) as u8)
        } else {
            found
        }
    }
}

/// A sorted list with one more sprite, which goes behind every sprite
/// whose X is not greater than its own.
pub open spec fn inserted(bus: BusState, sorted: Seq<u8>, index: u8) -> Seq<u8>
    decreases sorted.len(),
{
    if sorted.len() == 0 {
        seq![index]
    } else if sprite_byte(bus, sorted.last(), 1) <= sprite_byte(bus, index, 1) {
        sorted.push(index)
    } else {
        inserted(bus, sorted.drop_last(), index).push(sorted.last())
    }
}

/// The first `n` sprites of a list, sorted by X; sprites of equal X keep
/// their order.
pub open spec fn sorted_by_x(bus: BusState, list: Seq<u8>, n: int) -> Seq<u8>
    decreases n,
{
    if n <= 0 {
        Seq::empty()
    } else {
        inserted(bus, sorted_by_x(bus, list, n - 1), list[n - 1])
    }
}

/// The sprites of line `ly` in the order in which they are drawn.
pub open spec fn line_sprites(bus: BusState, lcdc: u8, ly: u8) -> Seq<u8> {
    let found = scanned(bus, lcdc, ly, 40);
    sorted_by_x(bus, found, found.len() as int)
}

/// Whether a list of sprites ascends by X and, among equal X, by place in
/// the table.
pub open spec fn ascending(bus: BusState, list: Seq<u8>) -> bool {
    forall|a: int, b: int|
        0 <= a < b < list.len() ==> sprite_byte(bus, list[a], 1) < sprite_byte(bus, list[b], 1) || (
        sprite_byte(bus, list[a], 1) == sprite_byte(bus, list[b], 1) && list[a] < list[b])
}

/// What the search finds: at most ten sprites, each of the first `n` of the
/// table and on the line, in ascending order of the table.
pub proof fn lemma_scanned(bus: BusState, lcdc: u8, ly: u8, n: int)
    requires
        0 <= n <= 40,
    ensures
        scanned(bus, lcdc, ly, n).len() <= 10,
        scanned(bus, lcdc, ly, n).len() <= n,
        forall|k: int|
            0 <= k < scanned(bus, lcdc, ly, n).len() ==> (#[trigger] scanned(bus, lcdc, ly, n)[k]) < n
                && sprite_on_line(bus, scanned(bus, lcdc, ly, n)[k], lcdc, ly),
        forall|a: int, b: int|
            0 <= a < b < scanned(bus, lcdc, ly, n).len() ==> scanned(bus, lcdc, ly, n)[a] < scanned(
                bus,
                lcdc,
                ly,
                n,
            )[b],
    decreases n,
{
    if n > 0 {
        lemma_scanned(bus, lcdc, ly, n - 1);
    }
}

/// The place at which a sprite goes into a sorted list: behind the last
/// sprite whose X is not greater than its own.
pub open spec fn place_of(bus: BusState, sorted: Seq<u8>, index: u8) -> int
    decreases sorted.len(),
{
    if sorted.len() == 0 {
        0
    } else if sprite_byte(bus, sorted.last(), 1) <= sprite_byte(bus, index, 1) {
        sorted.len() as int
    } else {
        place_of(bus, sorted.drop_last(), index)
    }
}

/// Behind its place every sprite has a greater X; the sprite just before
/// it has not.
proof fn lemma_place_of(bus: BusState, sorted: Seq<u8>, index: u8)
    ensures
        0 <= place_of(bus, sorted, index) <= sorted.len(),
        forall|k: int|
            place_of(bus, sorted, index) <= k < sorted.len() ==> sprite_byte(bus, #[trigger] sorted[k], 1)
                > sprite_byte(bus, index, 1),
        place_of(bus, sorted, index) > 0 ==> sprite_byte(
            bus,
            sorted[place_of(bus, sorted, index) - 1],
            1,
        ) <= sprite_byte(bus, index, 1),
    decreases sorted.len(),
{
    if sorted.len() > 0 && sprite_byte(bus, sorted.last(), 1) > sprite_byte(bus, index, 1) {
        let front = sorted.drop_last();
        lemma_place_of(bus, front, index);
        let place = place_of(bus, front, index);
        assert forall|k: int| place <= k < sorted.len() implies sprite_byte(bus, #[trigger] sorted[k], 1)
            > sprite_byte(bus, index, 1) by {
            if k < front.len() {
                assert(front[k] == sorted[k]);
            }
        }
        if place > 0 {
            assert(front[place - 1] == sorted[place - 1]);
        }
    }
}

/// Inserting a sprite into a list puts it at the place behind which every
/// sprite has a greater X, and before which the nearest has not.
proof fn lemma_inserted_at(bus: BusState, sorted: Seq<u8>, index: u8, place: int)
    requires
        0 <= place <= sorted.len(),
        forall|k: int| place <= k < sorted.len() ==> sprite_byte(bus, #[trigger] sorted[k], 1) > sprite_byte(bus, index, 1),
        place > 0 ==> sprite_byte(bus, sorted[place - 1], 1) <= sprite_byte(bus, index, 1),
    ensures
        inserted(bus, sorted, index) == sorted.insert(place, index),
    decreases sorted.len(),
{
    if sorted.len() == 0 {
        assert(sorted.insert(place, index) =~= seq![index]);
    } else if place == sorted.len() {
        assert(sorted.insert(place, index) =~= sorted.push(index));
    } else {
        let front = sorted.drop_last();
        assert(sorted[sorted.len() - 1] == sorted.last());
        assert forall|k: int| place <= k < front.len() implies sprite_byte(bus, #[trigger] front[k], 1)
            > sprite_byte(bus, index, 1) by {
            assert(front[k] == sorted[k]);
        }
        if place > 0 {
            assert(front[place - 1] == sorted[place - 1]);
        }
        lemma_inserted_at(bus, front, index, place);
        assert(sorted.insert(place, index) =~= front.insert(place, index).push(sorted.last()));
    }
}

/// A sorted list with one more sprite is the list with the sprite put in
/// at its place.
proof fn lemma_inserted_is_insert(bus: BusState, sorted: Seq<u8>, index: u8)
    ensures
        0 <= place_of(bus, sorted, index) <= sorted.len(),
        inserted(bus, sorted, index) == sorted.insert(place_of(bus, sorted, index), index),
{
    lemma_place_of(bus, sorted, index);
    lemma_inserted_at(bus, sorted, index, place_of(bus, sorted, index));
}

/// Inserting a sprite that stands behind all of a list in the table keeps
/// the list ascending.
proof fn lemma_inserted_ascending(bus: BusState, sorted: Seq<u8>, index: u8)
    requires
        ascending(bus, sorted),
        forall|k: int| 0 <= k < sorted.len() ==> #[trigger] sorted[k] < index,
    ensures
        ascending(bus, inserted(bus, sorted, index)),
{
    lemma_place_of(bus, sorted, index);
    lemma_inserted_is_insert(bus, sorted, index);
    let place = place_of(bus, sorted, index);
    let result = sorted.insert(place, index);
    let x = sprite_byte(bus, index, 1);
    assert forall|a: int| 0 <= a < place implies sprite_byte(bus, #[trigger] sorted[a], 1) <= x by {
        if a < place - 1 {
            assert(sprite_byte(bus, sorted[a], 1) <= sprite_byte(bus, sorted[place - 1], 1));
        }
    }
    assert forall|a: int, b: int| 0 <= a < b < result.len() implies sprite_byte(bus, result[a], 1)
        < sprite_byte(bus, result[b], 1) || (sprite_byte(bus, result[a], 1) == sprite_byte(
        bus,
        result[b],
        1,
    ) && result[a] < result[b]) by {
        if b < place {
            assert(result[a] == sorted[a] && result[b] == sorted[b]);
        } else if b == place {
            assert(result[a] == sorted[a] && result[b] == index);
        } else if a < place {
            assert(result[a] == sorted[a] && result[b] == sorted[b - 1]);
        } else if a == place {
            assert(result[a] == index && result[b] == sorted[b - 1]);
        } else {
            assert(result[a] == sorted[a - 1] && result[b] == sorted[b - 1]);
        }
    }
}

/// Sorting the first `n` sprites of a list that ascends in the table gives
/// the same sprites, ascending by X and, among equal X, by place in the
/// table.
pub proof fn lemma_sorted_by_x(bus: BusState, list: Seq<u8>, n: int)
    requires
        0 <= n <= list.len(),
        forall|a: int, b: int| 0 <= a < b < list.len() ==> list[a] < list[b],
    ensures
        ascending(bus, sorted_by_x(bus, list, n)),
        sorted_by_x(bus, list, n).len() == n,
        forall|k: int| 0 <= k < n ==> sorted_by_x(bus, list, n).contains(#[trigger] list[k]),
        forall|k: int|
            0 <= k < n ==> exists|j: int| 0 <= j < n && list[j] == #[trigger] sorted_by_x(bus, list, n)[k],
    decreases n,
{
    if n > 0 {
        lemma_sorted_by_x(bus, list, n - 1);
        let before = sorted_by_x(bus, list, n - 1);
        let after = sorted_by_x(bus, list, n);
        let index = list[n - 1];
        assert forall|k: int| 0 <= k < before.len() implies #[trigger] before[k] < index by {
            let j = choose|j: int| 0 <= j < n - 1 && list[j] == before[k];
            assert(list[j] < list[n - 1]);
        }
        lemma_inserted_ascending(bus, before, index);
        lemma_inserted_is_insert(bus, before, index);
        let place = place_of(bus, before, index);
        assert(after == before.insert(place, index));
        assert forall|k: int| 0 <= k < n implies after.contains(#[trigger] list[k]) by {
            if k < n - 1 {
                let j = choose|j: int| 0 <= j < before.len() && before[j] == list[k];
                if j < place {
                    assert(after[j] == list[k]);
                } else {
                    assert(after[j + 1] == list[k]);
                }
            } else {
                assert(after[place] == list[k]);
            }
        }
        assert forall|k: int| 0 <= k < n implies exists|j: int|
            0 <= j < n && list[j] == #[trigger] after[k] by {
            if k == place {
                assert(list[n - 1] == after[k]);
            } else {
                let i = if k < place { k } else { k - 1 };
                assert(before[i] == after[k]);
                let j = choose|j: int| 0 <= j < n - 1 && list[j] == before[i];
                assert(list[j] == after[k]);
            }
        }
    }
}

/// The search grows: what it has found among the first `n` sprites stays
/// found.
proof fn lemma_scan_keeps(bus: BusState, lcdc: u8, ly: u8, n: int, later: int, k: int)
    requires
        0 <= n <= later <= 40,
        0 <= k < scanned(bus, lcdc, ly, n).len(),
    ensures
        k < scanned(bus, lcdc, ly, later).len(),
        scanned(bus, lcdc, ly, later)[k] == scanned(bus, lcdc, ly, n)[k],
    decreases later - n,
{
    if n < later {
        lemma_scan_keeps(bus, lcdc, ly, n, later - 1, k);
    }
}

/// A sprite whose Y matches the line takes one of the ten places if one is
/// left when the search reaches it, whatever its X. With an X of 0, or of
/// 168 and more, it then shows nowhere on the screen.
pub proof fn lemma_hidden_sprite_takes_place(bus: BusState, lcdc: u8, ly: u8, index: u8)
    requires
        index < 40,
        sprite_on_line(bus, index, lcdc, ly),
        scanned(bus, lcdc, ly, index as int).len() < 10,
    ensures
        scanned(bus, lcdc, ly, 40).contains(index),
        line_sprites(bus, lcdc, ly).contains(index),
        sprite_byte(bus, index, 1) == 0 || sprite_byte(bus, index, 1) >= 168 ==> forall|x: int|
            0 <= x < 160 ==> sprite_colour(bus, index, lcdc, ly, x) == 0,
{
    let found = scanned(bus, lcdc, ly, index + 1);
    let k = found.len() - 1;
    assert(found[k] == index);
    lemma_scan_keeps(bus, lcdc, ly, index + 1, 40, k);
    assert(scanned(bus, lcdc, ly, 40)[k] == index);
    lemma_line_sprites(bus, lcdc, ly);
}

/// On every line at most ten sprites are drawn, each of them on the line;
/// they ascend by X, and sprites of equal X keep the order of the table.
/// A sprite counts whatever its X, on the screen or off it.
pub proof fn lemma_line_sprites(bus: BusState, lcdc: u8, ly: u8)
    ensures
        line_sprites(bus, lcdc, ly).len() <= 10,
        line_sprites(bus, lcdc, ly).len() == scanned(bus, lcdc, ly, 40).len(),
        ascending(bus, line_sprites(bus, lcdc, ly)),
        forall|k: int|
            0 <= k < line_sprites(bus, lcdc, ly).len() ==> (#[trigger] line_sprites(bus, lcdc, ly)[k])
                < 40 && sprite_on_line(bus, line_sprites(bus, lcdc, ly)[k], lcdc, ly),
        forall|k: int|
            0 <= k < scanned(bus, lcdc, ly, 40).len() ==> line_sprites(bus, lcdc, ly).contains(
                #[trigger] scanned(bus, lcdc, ly, 40)[k],
            ),
{
    let found = scanned(bus, lcdc, ly, 40);
    lemma_scanned(bus, lcdc, ly, 40);
    lemma_sorted_by_x(bus, found, found.len() as int);
    let order = line_sprites(bus, lcdc, ly);
    assert forall|k: int| 0 <= k < order.len() implies (#[trigger] order[k]) < 40 && sprite_on_line(
        bus,
        order[k],
        lcdc,
        ly,
    ) by {
        let j = choose|j: int| 0 <= j < found.len() && found[j] == order[k];
        assert(found[j] < 40);
    }
}

/// The colour that sprite `index` shows at screen column `x` of line `ly`:
/// 0, which is transparent, where the sprite does not reach. The flips of
/// its attributes turn the tile around; a sprite 16 lines high takes its
/// upper half from the even tile of a pair and its lower from the odd one.
pub open spec fn sprite_colour(bus: BusState, index: u8, lcdc: u8, ly: u8, x: int) -> u8 {
    let column = x + 8 - sprite_byte(bus, index, 1);
    let tile = sprite_byte(bus, index, 2);
    let attributes = sprite_byte(bus, index, 3);
    if column < 0 || column >= 8 {
        0
    } else {
        let height = sprite_height(lcdc);
        let row = ly + 16 - sprite_byte(bus, index, 0);
        let flipped_row = if spec_test_bit(attributes, 6) {
            height - 1 - row
        } else {
            row
        };
        let tile_index = if height == 16 {
            tile - tile % 2 + flipped_row / 8
        } else {
            tile as int
        };
        let flipped_column = if spec_test_bit(attributes, 5) {
            7 - column
        } else {
            column
        };
        row_pixel(bus.tile_row((0x8000 + tile_index * 16) as u16, flipped_row % 8), flipped_column)
    }
}

/// What a place of the sprite layer records: the colour in its low bits,
/// and from the attributes the priority in bit 7 and the palette in bit 4.
pub open spec fn sprite_mark(colour: u8, attributes: u8) -> u8 {
    (colour + (if spec_test_bit(attributes, 7) {
        128int
    } else {
        0
    }) + (if spec_test_bit(attributes, 4) {
        16int
    } else {
        0
    })) as u8
}

/// The sprite layer at column `x` after the first `k` sprites of `order`
/// were drawn: the first of them that is not transparent there, or blank.
pub open spec fn sprite_slot(bus: BusState, order: Seq<u8>, lcdc: u8, ly: u8, x: int, k: int) -> u8
    decreases k,
{
    if k <= 0 {
        BLANK_PIXEL
    } else {
        let below = sprite_slot(bus, order, lcdc, ly, x, k - 1);
        let colour = sprite_colour(bus, order[k - 1], lcdc, ly, x);
        if below != BLANK_PIXEL || colour == 0 {
            below
        } else {
            sprite_mark(colour, sprite_byte(bus, order[k - 1], 3))
        }
    }
}

/// The sprite layer of line `ly`: blank where bit 1 of the control
/// register switches the sprites off.
pub open spec fn sprite_layer(bus: BusState, lcdc: u8, ly: u8) -> Seq<u8> {
    if !spec_test_bit(lcdc, 1) {
        blank_line()
    } else {
        Seq::new(
            160,
            |x: int|
                sprite_slot(
                    bus,
                    line_sprites(bus, lcdc, ly),
                    lcdc,
                    ly,
                    x,
                    line_sprites(bus, lcdc, ly).len() as int,
                ),
        )
    }
}

/// Searches the sprite table for the sprites of line `ly`.
fn scan_sprites(mem: &Memory, lcdc: u8, ly: u8) -> (found: Vec<u8>)
    requires
        mem.wf(),
    ensures
        found@ == scanned(mem@, lcdc, ly, 40),
{
    let line: u16 = ly as u16 + 16;
    let obj_size: u16 = if test_bit(lcdc, 2) { 16 } else { 8 };
    let mut oam_buffer: Vec<u8> = Vec::new();
    let mut i: u8 = 0;
    while i < 40
        invariant
            mem.wf(),
            i <= 40,
            line == ly + 16,
            obj_size == sprite_height(lcdc),
            oam_buffer@ == scanned(mem@, lcdc, ly, i as int),
        decreases 40 - i,
    {
        let oam_sprite = mem.oam_search(i);
        let y = oam_sprite[0] as u16;
        assert(y == sprite_byte(mem@, i, 0));
        if oam_buffer.len() < 10 && y <= line && line < y + obj_size {
            oam_buffer.push(i);
        }
        i += 1;
    }
    oam_buffer
}

/// Sorts sprites by X; sprites of equal X keep their order.
fn sort_sprites(mem: &Memory, found: &Vec<u8>) -> (order: Vec<u8>)
    requires
        mem.wf(),
        forall|k: int| 0 <= k < found@.len() ==> found@[k] < 40,
    ensures
        order@ == sorted_by_x(mem@, found@, found@.len() as int),
{
    let mut order: Vec<u8> = Vec::new();
    let mut n: usize = 0;
    while n < found.len()
        invariant
            mem.wf(),
            n <= found@.len(),
            forall|k: int| 0 <= k < found@.len() ==> found@[k] < 40,
            order@ == sorted_by_x(mem@, found@, n as int),
            order@.len() == n,
            forall|k: int| 0 <= k < order@.len() ==> order@[k] < 40,
        decreases found@.len() - n,
    {
        let index = found[n];
        let x = mem.oam_search(index)[1];
        assert(x == sprite_byte(mem@, index, 1));
        let mut place: usize = order.len();
        while place > 0 && mem.oam_search(order[place - 1])[1] > x
            invariant
                mem.wf(),
                place <= order@.len(),
                x == sprite_byte(mem@, index, 1),
                forall|k: int| 0 <= k < order@.len() ==> order@[k] < 40,
                forall|k: int|
                    place <= k < order@.len() ==> sprite_byte(mem@, order@[k], 1) > x,
            decreases place,
        {
            place -= 1;
        }
        proof {
            lemma_inserted_at(mem@, order@, index, place as int);
        }
        order.insert(place, index);
        n += 1;
    }
    order
}

/// The colour of column `column` of a sprite whose row of pixels is
/// `pixels`, mirrored if the attributes say so.
pub open spec fn flipped_pixel(pixels: Seq<u8>, attributes: u8, column: int) -> u8 {
    if spec_test_bit(attributes, 5) {
        pixels[7 - column]
    } else {
        pixels[column]
    }
}

/// Draws one row of a sprite into the places of the layer that are still
/// blank; transparent pixels are left out.
fn paint_sprite(layer: &mut Vec<u8>, pixels: &Vec<u8>, sprite_x: u8, attributes: u8)
    requires
        old(layer)@.len() == 160,
        pixels@.len() == 8,
        forall|k: int| 0 <= k < 8 ==> #[trigger] pixels@[k] < 4,
    ensures
        final(layer)@.len() == 160,
        forall|x: int|
            0 <= x < 160 ==> #[trigger] final(layer)@[x] == (if old(layer)@[x] != BLANK_PIXEL || x + 8
                < sprite_x || x >= sprite_x || flipped_pixel(pixels@, attributes, x + 8 - sprite_x)
                == 0 {
                old(layer)@[x]
            } else {
                sprite_mark(flipped_pixel(pixels@, attributes, x + 8 - sprite_x), attributes)
            }),
{
    let mirrored = test_bit(attributes, 5);
    let mut marks: u8 = 0;
    if test_bit(attributes, 7) {
        marks = marks + 128;
    }
    if test_bit(attributes, 4) {
        marks = marks + 16;
    }
    let mut i: u16 = 0;
    while i < 8
        invariant
            i <= 8,
            layer@.len() == 160,
            pixels@.len() == 8,
            forall|k: int| 0 <= k < 8 ==> #[trigger] pixels@[k] < 4,
            mirrored == spec_test_bit(attributes, 5),
            marks == (if spec_test_bit(attributes, 7) {
                128int
            } else {
                0
            }) + (if spec_test_bit(attributes, 4) {
                16int
            } else {
                0
            }),
            forall|x: int|
                0 <= x < 160 ==> #[trigger] layer@[x] == (if old(layer)@[x] != BLANK_PIXEL || x + 8
                    < sprite_x || x + 8 >= sprite_x + i || flipped_pixel(
                    pixels@,
                    attributes,
                    x + 8 - sprite_x,
                ) == 0 {
                    old(layer)@[x]
                } else {
                    sprite_mark(flipped_pixel(pixels@, attributes, x + 8 - sprite_x), attributes)
                }),
        decreases 8 - i,
    {
        let position = sprite_x as u16 + i;
        if position >= 8 && position - 8 < 160 {
            let x = (position - 8) as usize;
            let colour = if mirrored {
                pixels[(7 - i) as usize]
            } else {
                pixels[i as usize]
            };
            if colour != 0 && layer[x] == BLANK_PIXEL {
                layer[x] = colour + marks;
            }
        }
        i += 1;
    }
}

/// Draws the sprite layer of line `ly`.
pub fn draw_sprites(mem: &Memory, lcdc: u8, ly: u8) -> (layer: Vec<u8>)
    requires
        mem.wf(),
    ensures
        layer@ == sprite_layer(mem@, lcdc, ly),
{
    let mut sprite_pixels = blank_layer();
    if !test_bit(lcdc, 1) {
        return sprite_pixels;
    }
    let tall = test_bit(lcdc, 2);
    let line: u16 = ly as u16 + 16;
    let found = scan_sprites(mem, lcdc, ly);
    proof {
        lemma_scanned(mem@, lcdc, ly, 40);
        lemma_line_sprites(mem@, lcdc, ly);
    }
    let oam_buffer = sort_sprites(mem, &found);
    let mut k: usize = 0;
    while k < oam_buffer.len()
        invariant
            mem.wf(),
            k <= oam_buffer@.len(),
            tall == spec_test_bit(lcdc, 2),
            line == ly + 16,
            oam_buffer@ == line_sprites(mem@, lcdc, ly),
            forall|j: int|
                0 <= j < oam_buffer@.len() ==> (#[trigger] oam_buffer@[j]) < 40 && sprite_on_line(
                    mem@,
                    oam_buffer@[j],
                    lcdc,
                    ly,
                ),
            sprite_pixels@.len() == 160,
            forall|x: int|
                0 <= x < 160 ==> #[trigger] sprite_pixels@[x] == sprite_slot(
                    mem@,
                    oam_buffer@,
                    lcdc,
                    ly,
                    x,
                    k as int,
                ),
        decreases oam_buffer@.len() - k,
    {
        let index = oam_buffer[k];
        let sprite = mem.oam_search(index);
        assert(sprite[0] == sprite_byte(mem@, index, 0));
        assert(sprite[1] == sprite_byte(mem@, index, 1));
        assert(sprite[2] == sprite_byte(mem@, index, 2));
        assert(sprite[3] == sprite_byte(mem@, index, 3));
        assert(sprite_on_line(mem@, oam_buffer@[k as int], lcdc, ly));
        let height: u16 = if tall { 16 } else { 8 };
        let row: u16 = line - sprite[0] as u16;
        let flipped_row: u16 = if test_bit(sprite[3], 6) { height - 1 - row } else { row };
        let tile_index: u16 = if tall {
            (sprite[2] - sprite[2] % 2) as u16 + flipped_row / 8
        } else {
            sprite[2] as u16
        };
        let tile_data = mem.read_tile(0x8000 + tile_index * 16);
        let row_data = tile_data[(flipped_row % 8) as usize];
        let row_pixels = get_individual_pixels(row_data);
        let ghost before = sprite_pixels@;
        paint_sprite(&mut sprite_pixels, &row_pixels, sprite[1], sprite[3]);
        assert forall|x: int| 0 <= x < 160 implies #[trigger] sprite_pixels@[x] == sprite_slot(
            mem@,
            oam_buffer@,
            lcdc,
            ly,
            x,
            k + 1,
        ) by {
            let column = x + 8 - sprite[1];
            assert(before[x] == sprite_slot(mem@, oam_buffer@, lcdc, ly, x, k as int));
            if 0 <= column < 8 {
                assert(row_data == mem@.tile_row((0x8000 + tile_index * 16) as u16, (flipped_row % 8) as int));
                assert(row_pixels@[column] == row_pixel(row_data, column));
                assert(row_pixels@[7 - column] == row_pixel(row_data, 7 - column));
            }
        }
        k += 1;
    }
    assert(sprite_pixels@ =~= sprite_layer(mem@, lcdc, ly));
    sprite_pixels
}

/// The shade of one pixel, chosen among the three layers. A sprite in
/// front shows where it is not transparent, else the window where it is
/// not blank, else the background. A sprite behind shows only where the
/// window is blank and the background has colour 0 or is blank. Window and
/// background go through BGP, a sprite through the palette that its mark
/// names. Where nothing shows the shade is 0.
pub open spec fn composed(sprite: u8, window: u8, background: u8, bgp: u8, obp0: u8, obp1: u8) -> u8 {
    let shown = sprite != BLANK_PIXEL;
    let colour = if shown {
        sprite % 4
    } else {
        0
    };
    let behind = shown && sprite >= 128;
    let palette = if shown && (sprite / 16) % 2 == 1 {
        obp1
    } else {
        obp0
    };
    if !behind {
        if colour != 0 {
            shade(colour, palette)
        } else if window != BLANK_PIXEL {
            shade(window, bgp)
        } else if background != BLANK_PIXEL {
            shade(background, bgp)
        } else {
            0
        }
    } else {
        if window != BLANK_PIXEL {
            shade(window, bgp)
        } else if background != BLANK_PIXEL && background != 0 {
            shade(background, bgp)
        } else {
            shade(colour, palette)
        }
    }
}

/// Chooses the shade of one pixel among the three layers.
pub fn compose(sprite: u8, window: u8, background: u8, bgp: u8, obp0: u8, obp1: u8) -> (r: u8)
    requires
        window <= 4,
        background <= 4,
    ensures
        r == composed(sprite, window, background, bgp, obp0, obp1),
        r < 4,
{
    let shown = sprite != BLANK_PIXEL;
    let colour = if shown { sprite % 4 } else { 0 };
    let behind = shown && sprite >= 128;
    let palette = if shown && (sprite / 16) % 2 == 1 { obp1 } else { obp0 };
    if !behind {
        if colour != 0 {
            to_palette(colour, palette)
        } else if window != BLANK_PIXEL {
            to_palette(window, bgp)
        } else if background != BLANK_PIXEL {
            to_palette(background, bgp)
        } else {
            0
        }
    } else {
        if window != BLANK_PIXEL {
            to_palette(window, bgp)
        } else if background != BLANK_PIXEL && background != 0 {
            to_palette(background, bgp)
        } else {
            to_palette(colour, palette)
        }
    }
}

/// The line that the registers and the video memory describe, with the
/// window drawn from line `window_line` of its map.
#[verifier::opaque]
pub open spec fn drawn_line(bus: BusState, window_line: int) -> Seq<u8> {
    let lcdc = bus.mem[0xFF40];
    let ly = bus.mem[0xFF44];
    Seq::new(
        160,
        |x: int|
            composed(
                sprite_layer(bus, lcdc, ly)[x],
                window_layer(bus, lcdc, ly, window_line)[x],
                background_line(bus, lcdc, ly)[x],
                bus.mem[0xFF47],
                bus.mem[0xFF48],
                bus.mem[0xFF49],
            ),
    )
}

/// Draws the current line: 160 shades, each of two bits.
pub fn draw(ppu: &mut Ppu, mem: &Memory) -> (line: Vec<u8>)
    requires
        mem.wf(),
        old(ppu).window_line < 256,
    ensures
        line@ == drawn_line(mem@, old(ppu).window_line as int),
        line@.len() == 160,
        forall|x: int| 0 <= x < 160 ==> #[trigger] line@[x] < 4,
        *final(ppu) == (Ppu {
            window_line: window_line_after(mem@, mem@.mem[0xFF40], mem@.mem[0xFF44], old(ppu).window_line),
            ..*old(ppu)
        }),
        final(ppu).window_line < 256,
{
    reveal(drawn_line);
    let lcdc = mem.unchecked_read(PpuRegisters::LCDC.address());
    let ly = mem.unchecked_read(PpuRegisters::LY.address());
    let mut screen_pixels: Vec<u8> = Vec::new();
    let background_pixels = draw_background(mem, lcdc, ly);
    let window_pixels = draw_window(ppu, mem, lcdc, ly);
    let bg_palette = mem.unchecked_read(PpuRegisters::BGP.address());
    let sprite_pixels = draw_sprites(mem, lcdc, ly);
    let sprite_palette_0 = mem.unchecked_read(PpuRegisters::OBP0.address());
    let sprite_palette_1 = mem.unchecked_read(PpuRegisters::OBP1.address());
    let mut i: usize = 0;
    while i < LINE_WIDTH
        invariant
            mem.wf(),
            i <= 160,
            lcdc == mem@.mem[0xFF40],
            ly == mem@.mem[0xFF44],
            bg_palette == mem@.mem[0xFF47],
            sprite_palette_0 == mem@.mem[0xFF48],
            sprite_palette_1 == mem@.mem[0xFF49],
            background_pixels@ == background_line(mem@, lcdc, ly),
            window_pixels@ == window_layer(mem@, lcdc, ly, old(ppu).window_line as int),
            sprite_pixels@ == sprite_layer(mem@, lcdc, ly),
            screen_pixels@.len() == i,
            forall|x: int|
                0 <= x < i ==> #[trigger] screen_pixels@[x] == drawn_line(
                    mem@,
                    old(ppu).window_line as int,
                )[x] && screen_pixels@[x] < 4,
        decreases 160 - i,
    {
        reveal(drawn_line);
        let win_pixel = window_pixels[i];
        let sprite_pixel = sprite_pixels[i];
        let bg_pixel = background_pixels[i];
        assert(bg_pixel == background_pixel(mem@, lcdc, ly, i as int));
        assert(win_pixel <= 4) by {
            assert(win_pixel == window_layer(mem@, lcdc, ly, old(ppu).window_line as int)[i as int]);
        }
        screen_pixels.push(
            compose(sprite_pixel, win_pixel, bg_pixel, bg_palette, sprite_palette_0, sprite_palette_1),
        );
        i += 1;
    }
    assert(screen_pixels@ =~= drawn_line(mem@, old(ppu).window_line as int));
    screen_pixels
}

/// The bus after the comparison of LY with LYC at the start of a line: bit
/// 2 of the status register tells whether they agree, and where they do
/// and bit 6 enables it, the status interrupt is requested.
#[verifier::opaque]
pub open spec fn coincidence_checked(bus: BusState) -> BusState {
    let same = bus.mem[0xFF44] == bus.mem[0xFF45];
    let stat = spec_with_bit(bus.mem[0xFF41], 2, same);
    let requested = if spec_test_bit(stat, 6) && same {
        bus.write(INTERRUPT_F_ADDRESS, spec_with_bit(bus.mem[0xFF0F], 1, true))
    } else {
        bus
    };
    requested.write(0xFF41, stat)
}

/// Compares LY with LYC at the start of a line.
fn check_coincidence(mem: &mut Memory)
    requires
        old(mem).wf(),
    ensures
        final(mem)@ == coincidence_checked(old(mem)@),
        final(mem).wf(),
        final(mem)@.mem[0xFF40] == old(mem)@.mem[0xFF40],
{
    reveal(coincidence_checked);
    reveal(BusState::write);
    let stat = mem.unchecked_read(PpuRegisters::STAT.address());
    let condition_met = mem.unchecked_read(PpuRegisters::LY.address()) == mem.unchecked_read(
        PpuRegisters::LYC.address(),
    );
    let stat = with_bit(stat, 2, condition_met);
    if test_bit(stat, 6) && condition_met {
        let interrupt_flag = mem.unchecked_read(INTERRUPT_F_ADDRESS);
        mem.write(INTERRUPT_F_ADDRESS, with_bit(interrupt_flag, 1, true));
    }
    mem.write(PpuRegisters::STAT.address(), stat);
}

/// What the picture processor does in `ticks` dots: its new state, the new
/// bus, and the line that it emits, if any. With bit 7 of the control
/// register clear it stands still. At dot 0 it compares LY with LYC. The
/// sprite search ends at dot 80 and drawing at dot 178, where the line is
/// emitted; the line ends at dot 456, after line 143 into the vertical
/// blank, which lasts ten lines.
#[verifier::opaque]
pub open spec fn ppu_step(ppu: Ppu, bus: BusState, ticks: u8) -> (Ppu, BusState, Option<Seq<u8>>) {
    if bus.mem[0xFF40] < 128 {
        (ppu, bus, None)
    } else {
        let checked = if ppu.ticks == 0 {
            coincidence_checked(bus)
        } else {
            bus
        };
        let dots = (ppu.ticks + ticks) as usize;
        let waiting = Ppu { ticks: dots, ..ppu };
        match ppu.state {
            PpuState::Oam => {
                if dots < OAM_CYCLES {
                    (waiting, checked, None)
                } else {
                    (Ppu { state: PpuState::Drawing, ..waiting }, stat_updated(checked, 0, 3), None)
                }
            },
            PpuState::Drawing => {
                if dots < DRAW_CYCLES {
                    (waiting, checked, None)
                } else {
                    let hblank = stat_updated(checked, STAT_HBLANK, 0);
                    (
                        Ppu {
                            state: PpuState::HBlank,
                            ticks: dots,
                            window_line: window_line_after(
                                hblank,
                                hblank.mem[0xFF40],
                                hblank.mem[0xFF44],
                                ppu.window_line,
                            ),
                        },
                        hblank,
                        Some(drawn_line(hblank, ppu.window_line as int)),
                    )
                }
            },
            PpuState::HBlank => {
                if dots < HBLANK_CYCLES {
                    (waiting, checked, None)
                } else {
                    let ly = checked.mem[0xFF44];
                    let next = checked.write(0xFF44, ly.wrapping_add(1));
                    if ly == 143 {
                        (
                            Ppu { state: PpuState::VBlank, ticks: 0, ..ppu },
                            stat_updated(next, STAT_VBLANK, 1),
                            None,
                        )
                    } else {
                        (
                            Ppu { state: PpuState::Oam, ticks: 0, ..ppu },
                            stat_updated(next, STAT_OAM, 2),
                            None,
                        )
                    }
                }
            },
            PpuState::VBlank => {
                if dots < HBLANK_CYCLES * 10 {
                    (waiting, checked.write(0xFF44, (144 + dots / HBLANK_CYCLES) as u8), None)
                } else {
                    (Ppu::initial(), stat_updated(checked, STAT_OAM, 2).write(0xFF44, 0), None)
                }
            },
        }
    }
}

/// Whether a line that was emitted is the one that the model gives.
pub open spec fn line_matches(line: Option<Vec<u8>>, model: Option<Seq<u8>>) -> bool {
    match (line, model) {
        (Some(v), Some(s)) => v@ == s,
        (None, None) => true,
        _ => false,
    }
}

/// Advances the picture processor by `ticks` dots. Returns the line that
/// was completed, if one was: 160 shades of two bits.
pub fn update_ppu(ppu: &mut Ppu, mem: &mut Memory, ticks: u8) -> (line: Option<Vec<u8>>)
    requires
        old(mem).wf(),
        old(ppu).wf(),
    ensures
        *final(ppu) == ppu_step(*old(ppu), old(mem)@, ticks).0,
        final(mem)@ == ppu_step(*old(ppu), old(mem)@, ticks).1,
        line_matches(line, ppu_step(*old(ppu), old(mem)@, ticks).2),
        line.is_some() ==> line.unwrap()@.len() == 160 && forall|x: int|
            0 <= x < 160 ==> #[trigger] line.unwrap()@[x] < 4,
        line.is_some() == (old(mem)@.mem[0xFF40] >= 128 && old(ppu).state == PpuState::Drawing
            && old(ppu).ticks + ticks >= DRAW_CYCLES),
        final(mem).wf(),
        final(ppu).wf(),
{
    reveal(ppu_step);
    let lcdc = mem.unchecked_read(PpuRegisters::LCDC.address());
    if lcdc < 128 {
        return None;
    }
    if ppu.ticks == 0 {
        check_coincidence(mem);
    }
    ppu.ticks = ppu.ticks + ticks as usize;
    match ppu.state {
        PpuState::Oam => {
            if ppu.ticks < OAM_CYCLES {
                return None;
            }
            ppu.state = PpuState::Drawing;
            stat_interrupt(mem, 0, 3);
        },
        PpuState::Drawing => {
            if ppu.ticks < DRAW_CYCLES {
                return None;
            }
            stat_interrupt(mem, STAT_HBLANK, 0);
            ppu.state = PpuState::HBlank;
            return Some(draw(ppu, mem));
        },
        PpuState::HBlank => {
            if ppu.ticks < HBLANK_CYCLES {
                return None;
            }
            let ly = mem.unchecked_read(PpuRegisters::LY.address());
            mem.write(PpuRegisters::LY.address(), ly.wrapping_add(1));
            ppu.line_reset();
            if ly == 143 {
                stat_interrupt(mem, STAT_VBLANK, 1);
                ppu.state = PpuState::VBlank;
                return None;
            }
            stat_interrupt(mem, STAT_OAM, 2);
        },
        PpuState::VBlank => {
            if ppu.ticks < HBLANK_CYCLES * 10 {
                let new_ly: u8 = 144 + (ppu.ticks / HBLANK_CYCLES) as u8;
                mem.write(PpuRegisters::LY.address(), new_ly);
                return None;
            }
            stat_interrupt(mem, STAT_OAM, 2);
            *ppu = Ppu::default();
            mem.write(PpuRegisters::LY.address(), 0)
        },
    }
    None
}

} // verus!
