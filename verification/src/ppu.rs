use vstd::prelude::*;
use crate::alu::signed_value;
use crate::interrupts::{Interrupts, InterruptRegBit, with_request_bit};
use crate::mmu::{
    Caller, LcdControlRegBit, LcdStatRegBit, Mmu, MmuView, BGP_REG, DMA_REG, IF_REG,
    LCD_CONTROL_REG, LCD_STATUS_REG, LYC_REG, LY_REG, OAM_END, OAM_START, OBP0_REG, OBP1_REG,
    SCX_REG, SCY_REG, WX_REG, WY_REG,
};
use crate::register::{Register, bit_set, with_bit};
use crate::sprite_attribute::{SpriteAttribute, sprite_attribute_spec};
use crate::tilemap::{Tile, pixel_color, read_tile, tile_color};

verus! {

/// The mode of the pixel processing unit, as held in bits 0-1 of STAT.
#[derive(Clone, Copy, PartialEq, Eq, Structural, Debug)]
pub enum StatMode {
    HBlank,
    VBlank,
    OamSearch,
    PixelTransfer,
}

/// The mode that a two-bit STAT mode number names.
pub open spec fn stat_mode_spec(bits: int) -> StatMode {
    if bits == 0 {
        StatMode::HBlank
    } else if bits == 1 {
        StatMode::VBlank
    } else if bits == 2 {
        StatMode::OamSearch
    } else {
        StatMode::PixelTransfer
    }
}

/// The two-bit STAT mode number of a mode.
pub open spec fn stat_mode_number(mode: StatMode) -> u8 {
    match mode {
        StatMode::HBlank => 0,
        StatMode::VBlank => 1,
        StatMode::OamSearch => 2,
        StatMode::PixelTransfer => 3,
    }
}

/// STAT_MODES[index]: the mode with the given number.
pub fn stat_mode(index: u8) -> (r: StatMode)
    requires
        index < 4,
    ensures
        r == stat_mode_spec(index as int),
{
    match index {
        0 => StatMode::HBlank,
        1 => StatMode::VBlank,
        2 => StatMode::OamSearch,
        _ => StatMode::PixelTransfer,
    }
}

impl StatMode {
    /// `mode as u8`.
    pub fn number(self) -> (r: u8)
        ensures
            r == stat_mode_number(self),
    {
        match self {
            StatMode::HBlank => 0,
            StatMode::VBlank => 1,
            StatMode::OamSearch => 2,
            StatMode::PixelTransfer => 3,
        }
    }
}

/// How many cycles each mode lasts (HBlank 51, VBlank 114, OAM search 20 and
/// pixel transfer 43 machine cycles of 4).
pub open spec fn mode_duration_spec(mode: StatMode) -> int {
    match mode {
        StatMode::HBlank => 204,
        StatMode::VBlank => 456,
        StatMode::OamSearch => 80,
        StatMode::PixelTransfer => 172,
    }
}

/// MODE_DURATION[mode].
pub fn mode_duration(mode: StatMode) -> (r: usize)
    ensures
        r == mode_duration_spec(mode),
{
    match mode {
        StatMode::HBlank => 51 * 4,
        StatMode::VBlank => (20 + 43 + 51) * 4,
        StatMode::OamSearch => 20 * 4,
        StatMode::PixelTransfer => 43 * 4,
    }
}

pub const LCD_WIDTH: usize = 160;
pub const LCD_HEIGHT: usize = 144;

/// The screen: colour values, row after row.
pub struct Lcd {
    pub width: usize,
    pub height: usize,
    pub data: Vec<u8>,
}

impl Lcd {
    pub open spec fn wf(&self) -> bool {
        self.width == LCD_WIDTH && self.height == LCD_HEIGHT && self.data.len() == LCD_WIDTH * LCD_HEIGHT
    }

    /// A blank screen of 160x144 pixels.
    pub fn new() -> (r: Lcd)
        ensures
            r.wf(),
            forall|i: int| 0 <= i < r.data.len() ==> r.data@[i] == 0,
    {
        let width: usize = LCD_WIDTH;
        let height: usize = LCD_HEIGHT;
        Lcd { width, height, data: vec![0u8; width * height] }
    }

    /// The colour value at column `x` of row `y`.
    pub fn pixel(&self, x: usize, y: usize) -> (r: u8)
        requires
            self.wf(),
            x < LCD_WIDTH,
            y < LCD_HEIGHT,
        ensures
            r == self.data@[y * LCD_WIDTH + x],
    {
        self.data[y * LCD_WIDTH + x]
    }
}

/// The pixel processing unit: its registers, the sprites found by the last OAM
/// search, and the screen it draws.
pub struct Ppu {
    pub mode_cycle_count: usize,
    pub scy: Register,
    pub scx: Register,
    pub ly: Register,
    pub lyc: Register,
    pub dma: Register,
    pub bgp: Register,
    pub obp0: Register,
    pub obp1: Register,
    pub wy: Register,
    pub wx: Register,
    pub lcd_control: Register,
    pub lcd_status: Register,
    pub sprite_attributes: Vec<SpriteAttribute>,
    pub lcd: Lcd,
}

/// The mathematical model of the PPU: what changes as it runs.
pub struct PpuView {
    pub mode_cycle_count: int,
    pub sprites: Seq<SpriteAttribute>,
    pub lcd: Seq<u8>,
}

impl View for Ppu {
    type V = PpuView;

    open spec fn view(&self) -> PpuView {
        PpuView {
            mode_cycle_count: self.mode_cycle_count as int,
            sprites: self.sprite_attributes@,
            lcd: self.lcd.data@,
        }
    }
}

// What the PPU reads of its registers: all of them are plain RAM bytes to it.
pub open spec fn lcdc(m: MmuView) -> u8 {
    m.ram_at(LCD_CONTROL_REG)
}

pub open spec fn stat(m: MmuView) -> u8 {
    m.ram_at(LCD_STATUS_REG)
}

pub open spec fn ly_of(m: MmuView) -> u8 {
    m.ram_at(LY_REG)
}

/// The mode that STAT holds.
pub open spec fn mode_of(m: MmuView) -> StatMode {
    stat_mode_spec((stat(m) % 4) as int)
}

/// An interrupt requested by the PPU: its bit set in IF.
pub open spec fn request_spec(m: MmuView, bit: u8) -> MmuView {
    with_request_bit(m, bit, true)
}

/// The memory after the PPU enters a mode: STAT's mode bits set, and the STAT
/// interrupt requested where STAT enables it for that mode (VBlank also always
/// requests the VBlank interrupt, and honours the OAM source too).
pub open spec fn set_stat_mode_spec(m: MmuView, mode: StatMode) -> MmuView {
    let v = ((stat(m) & 0xFC) | stat_mode_number(mode)) as u8;
    let m1 = m.write_8(LCD_STATUS_REG, v, Caller::PPU);
    match mode {
        StatMode::HBlank => if bit_set(stat(m1), 3) { request_spec(m1, 1) } else { m1 },
        StatMode::VBlank => {
            let m2 = request_spec(m1, 0);
            let m3 = if bit_set(stat(m2), 4) { request_spec(m2, 1) } else { m2 };
            if bit_set(stat(m3), 5) { request_spec(m3, 1) } else { m3 }
        },
        StatMode::OamSearch => if bit_set(stat(m1), 5) { request_spec(m1, 1) } else { m1 },
        StatMode::PixelTransfer => m1,
    }
}

/// The next line number: LY + 1, back to 0 after line 153.
pub open spec fn next_ly(ly: u8) -> u8 {
    let n = (ly + 1) % 256;
    if n >= 154 { 0 } else { n as u8 }
}

pub open spec fn increment_ly_spec(m: MmuView) -> MmuView {
    m.write_ram(LY_REG, next_ly(ly_of(m)), Caller::PPU)
}

/// The memory after the current mode ends: OAM search is followed by pixel
/// transfer, pixel transfer by HBlank; HBlank moves to the next line and to
/// OAM search, or to VBlank after the last visible line; VBlank moves to the
/// next line and back to OAM search once LY wraps to 0.
#[verifier::opaque]
pub open spec fn next_mode_spec(m: MmuView, mode: StatMode) -> MmuView {
    match mode {
        StatMode::OamSearch => set_stat_mode_spec(m, StatMode::PixelTransfer),
        StatMode::PixelTransfer => set_stat_mode_spec(m, StatMode::HBlank),
        StatMode::HBlank => {
            let m1 = increment_ly_spec(m);
            if ly_of(m1) < 144 {
                set_stat_mode_spec(m1, StatMode::OamSearch)
            } else {
                set_stat_mode_spec(m1, StatMode::VBlank)
            }
        },
        StatMode::VBlank => {
            let m1 = increment_ly_spec(m);
            if ly_of(m1) == 0 { set_stat_mode_spec(m1, StatMode::OamSearch) } else { m1 }
        },
    }
}

/// The memory after comparing LY with LYC: STAT bit 2 tells whether they are
/// equal, and when they are the STAT interrupt is requested if bit 6 enables it.
#[verifier::opaque]
pub open spec fn lyc_compare_spec(m: MmuView) -> MmuView {
    if ly_of(m) == m.ram_at(LYC_REG) {
        let m1 = m.write_8(LCD_STATUS_REG, with_bit(stat(m), 2, true), Caller::PPU);
        if bit_set(stat(m1), 6) { request_spec(m1, 1) } else { m1 }
    } else {
        m.write_8(LCD_STATUS_REG, with_bit(stat(m), 2, false), Caller::PPU)
    }
}

/// Which layer a line is drawn for.
#[derive(Clone, Copy, PartialEq, Eq, Structural, Debug)]
pub enum DrawMode {
    Background,
    Sprites,
    Window,
}

/// The colour of a palette register for a colour number 0-3 (two bits each, number 0 lowest).
pub open spec fn palette_color(byte: u8, color: u8) -> u8 {
    if color == 0 {
        byte & 0x03
    } else if color == 1 {
        (byte >> 2u8) & 0x03
    } else if color == 2 {
        (byte >> 4u8) & 0x03
    } else {
        byte >> 6u8
    }
}

/// The colour number of pixel `x` of the current line of the background, or of
/// the window. The line and column are shifted by SCY/SCX for the background
/// and by -WY/7-WX for the window, wrapping at 256; the tile map (0x9800 or
/// 0x9C00, by LCDC bit 3 or 6) gives the tile, whose data lies at 0x8000 +
/// 16 * index, or at 0x9000 + 16 * (signed index) when LCDC bit 4 is clear.
pub open spec fn bgwin_color(m: MmuView, window: bool, x: int) -> u8 {
    let ly = ly_of(m) as int;
    let y_off: int = if window { -(m.ram_at(WY_REG) as int) } else { m.ram_at(SCY_REG) as int };
    let x_off: int = if window { 7 - m.ram_at(WX_REG) } else { m.ram_at(SCX_REG) as int };
    let map_bit: u8 = if window { 6 } else { 3 };
    let map: int = if bit_set(lcdc(m), map_bit) { 0x9C00 } else { 0x9800 };
    map_tile_color(m, map, bit_set(lcdc(m), 4), (ly + y_off) % 256, (x + x_off) % 256)
}

/// The colour number at line `yy`, column `xx` (both 0-255) of the 256x256
/// picture that the tile map at `map` describes.
pub open spec fn map_tile_color(m: MmuView, map: int, mode8000: bool, yy: int, xx: int) -> u8 {
    let tile_index = m.read_8((map + (yy / 8) * 32 + xx / 8) as u16, Caller::PPU);
    let tile_address: int = (if mode8000 {
        0x8000 + tile_index * 16
    } else {
        0x9000 + signed_value(tile_index) * 16
    }) + (yy % 8) * 2;
    tile_color(m.read_8(tile_address as u16, Caller::PPU), m.read_8((tile_address + 1) as u16, Caller::PPU), xx % 8)
}

/// Whether the window is off screen for the current line (WY at or below it, or WX past the right edge).
pub open spec fn window_hidden(m: MmuView) -> bool {
    m.ram_at(WY_REG) >= ly_of(m) || m.ram_at(WX_REG) >= 167
}

/// The screen after the current line of the background (every pixel) or of the
/// window (its pixels of colour number above 0, offset by 4) is drawn.
pub open spec fn bgwin_line_spec(lcd: Seq<u8>, m: MmuView, window: bool) -> Seq<u8> {
    let row = ly_of(m) as int * 160;
    if window && window_hidden(m) {
        lcd
    } else {
        Seq::new(lcd.len(), |i: int|
            if row <= i < row + 160 && (!window || bgwin_color(m, window, i - row) > 0) {
                (palette_color(m.ram_at(BGP_REG), bgwin_color(m, window, i - row))
                    + (if window { 4int } else { 0 })) as u8
            } else {
                lcd[i]
            })
    }
}

/// The top line of a sprite, and its height (16 with LCDC bit 2, else 8).
pub open spec fn sprite_top(attr: SpriteAttribute) -> int {
    (attr.y - 16 + 256) % 256
}

pub open spec fn sprite_height(m: MmuView) -> int {
    if bit_set(lcdc(m), 2) { 16 } else { 8 }
}

pub open spec fn sprite_visible(m: MmuView, attr: SpriteAttribute) -> bool {
    sprite_top(attr) <= ly_of(m) < sprite_top(attr) + sprite_height(m)
}

/// The address of the two bytes of the sprite's tile row on the current line
/// (flipped vertically when the attribute says so; a tall sprite takes the
/// even tile for its top half and the odd one for its bottom half).
pub open spec fn sprite_row_address(m: MmuView, attr: SpriteAttribute) -> int {
    let is16 = bit_set(lcdc(m), 2);
    let row0 = ly_of(m) - sprite_top(attr);
    let row_n = if attr.flip_y { sprite_height(m) - row0 - 1 } else { row0 };
    let tile: u8 = if row_n < 8 {
        if is16 { attr.tile_index & 0xFE } else { attr.tile_index }
    } else {
        if is16 { attr.tile_index | 0x01 } else { attr.tile_index }
    };
    0x8000 + tile * 16 + (if row_n < 8 { row_n } else { row_n - 8 }) * 2
}

/// The screen column of column `col` of a sprite (flipped horizontally when the
/// attribute says so): X - 8 + the column, wrapping at 256.
pub open spec fn sprite_x(attr: SpriteAttribute, col: int) -> int {
    (attr.x + 248 + (if attr.flip_x { 7 - col } else { col })) % 256
}

#[verifier::opaque]
pub open spec fn sprite_col_color(m: MmuView, attr: SpriteAttribute, col: int) -> u8 {
    let a = sprite_row_address(m, attr);
    tile_color(m.read_8(a as u16, Caller::PPU), m.read_8((a + 1) as u16, Caller::PPU), col)
}

/// The screen after columns 0 to k-1 of a sprite's row are drawn: each pixel of
/// colour number above 0 that falls on the screen, offset by 8.
pub open spec fn sprite_cols_spec(lcd: Seq<u8>, m: MmuView, attr: SpriteAttribute, k: int) -> Seq<u8>
    decreases k,
{
    if k <= 0 {
        lcd
    } else {
        sprite_col_step(sprite_cols_spec(lcd, m, attr, k - 1), m, attr, k - 1)
    }
}

/// The screen after column `col` of a sprite's row is drawn.
pub open spec fn sprite_col_step(lcd: Seq<u8>, m: MmuView, attr: SpriteAttribute, col: int) -> Seq<u8> {
    let c = sprite_col_color(m, attr, col);
    let x = sprite_x(attr, col);
    if c > 0 && x < 160 {
        lcd.update(ly_of(m) * 160 + x, (palette_color(m.ram_at(BGP_REG), c) + 8) as u8)
    } else {
        lcd
    }
}

/// The screen after the first n sprites are drawn on the current line, in order.
pub open spec fn sprites_line_spec(lcd: Seq<u8>, m: MmuView, sprites: Seq<SpriteAttribute>, n: int) -> Seq<u8>
    decreases n,
{
    if n <= 0 {
        lcd
    } else {
        let prev = sprites_line_spec(lcd, m, sprites, n - 1);
        if sprite_visible(m, sprites[n - 1]) { sprite_cols_spec(prev, m, sprites[n - 1], 8) } else { prev }
    }
}

/// The screen after the current line is drawn: background (LCDC bit 0), window
/// (bits 0 and 5), then sprites (bit 1).
#[verifier::opaque]
pub open spec fn pixel_transfer_spec(lcd: Seq<u8>, m: MmuView, sprites: Seq<SpriteAttribute>) -> Seq<u8> {
    let bg_on = bit_set(lcdc(m), 0);
    let l1 = if bg_on { bgwin_line_spec(lcd, m, false) } else { lcd };
    let l2 = if bg_on && bit_set(lcdc(m), 5) { bgwin_line_spec(l1, m, true) } else { l1 };
    if bit_set(lcdc(m), 1) { sprites_line_spec(l2, m, sprites, 40) } else { l2 }
}

/// The sprites after an OAM search: on line 0 with sprites enabled (LCDC bit 1),
/// the 40 entries of OAM; otherwise those already held.
#[verifier::opaque]
pub open spec fn oam_search_spec(sprites: Seq<SpriteAttribute>, m: MmuView) -> Seq<SpriteAttribute> {
    if ly_of(m) == 0 && bit_set(lcdc(m), 1) {
        Seq::new(40, |i: int| sprite_attribute_spec(m.ram_at((OAM_START + 4 * i) as u16),
            m.ram_at((OAM_START + 4 * i + 1) as u16), m.ram_at((OAM_START + 4 * i + 2) as u16),
            m.ram_at((OAM_START + 4 * i + 3) as u16)))
    } else {
        sprites
    }
}

/// Whether a PPU step cannot fault: the cycle count does not overflow, and a
/// line is only drawn while LY is on the screen.
pub open spec fn ppu_step_ok(p: PpuView, m: MmuView, cycles: u16) -> bool {
    &&& p.mode_cycle_count + cycles <= usize::MAX
    &&& bit_set(lcdc(m), 7) && mode_of(m) == StatMode::PixelTransfer ==> ly_of(m) < 144
}

/// A PPU step. With the LCD on (LCDC bit 7): once the current mode has lasted
/// its duration the next mode begins; then the mode's work is done (OAM search
/// or drawing a line); then LY is compared with LYC. In any case the cycles of
/// the last instruction are added to the mode's count.
pub open spec fn ppu_step_spec(p: PpuView, m: MmuView, cycles: u16) -> (PpuView, MmuView) {
    if bit_set(lcdc(m), 7) {
        let mode = mode_of(m);
        let ended = p.mode_cycle_count >= mode_duration_spec(mode);
        let p1 = if ended { PpuView { mode_cycle_count: 0, ..p } } else { p };
        let m1 = if ended { next_mode_spec(m, mode) } else { m };
        let p2 = match mode {
            StatMode::OamSearch => PpuView { sprites: oam_search_spec(p1.sprites, m1), ..p1 },
            StatMode::PixelTransfer => PpuView { lcd: pixel_transfer_spec(p1.lcd, m1, p1.sprites), ..p1 },
            _ => p1,
        };
        (PpuView { mode_cycle_count: p2.mode_cycle_count + cycles, ..p2 }, lyc_compare_spec(m1))
    } else {
        (PpuView { mode_cycle_count: p.mode_cycle_count + cycles, ..p }, m)
    }
}

/// Whether an OAM DMA step cannot fault: its source can be read and moved on.
pub open spec fn oam_dma_ok(m: MmuView) -> bool {
    m.oam_dma_src_addr matches Some(a) ==> a < 0xFFFF && m.read_8_ok(a)
}

/// One OAM DMA step: the byte at the source copied to the same offset in OAM
/// (unless OAM is locked by OAM search or pixel transfer), then the source moved
/// on, the transfer ending after offset 0x9F.
pub open spec fn oam_dma_spec(m: MmuView) -> MmuView {
    match m.oam_dma_src_addr {
        None => m,
        Some(a) => {
            let v = m.read_8(a, Caller::PPU);
            let mode = mode_of(m);
            let m1 = if mode != StatMode::PixelTransfer && mode != StatMode::OamSearch {
                m.write_8((0xFE00 + a % 256) as u16, v, Caller::PPU)
            } else {
                m
            };
            let next = a + 1;
            MmuView { oam_dma_src_addr: if next % 256 > 0x9F { None } else { Some(next as u16) }, ..m1 }
        },
    }
}

impl Ppu {
    pub open spec fn wf(&self) -> bool {
        &&& self.scy.address == SCY_REG
        &&& self.scx.address == SCX_REG
        &&& self.ly.address == LY_REG
        &&& self.lyc.address == LYC_REG
        &&& self.dma.address == DMA_REG
        &&& self.bgp.address == BGP_REG
        &&& self.obp0.address == OBP0_REG
        &&& self.obp1.address == OBP1_REG
        &&& self.wy.address == WY_REG
        &&& self.wx.address == WX_REG
        &&& self.lcd_control.address == LCD_CONTROL_REG
        &&& self.lcd_status.address == LCD_STATUS_REG
        &&& self.sprite_attributes.len() == 40
        &&& self.lcd.wf()
    }

    pub fn new() -> (r: Ppu)
        ensures
            r.wf(),
            r@.mode_cycle_count == 0,
            forall|i: int| 0 <= i < 40 ==> r@.sprites[i] == sprite_attribute_spec(0, 0, 0, 0),
            forall|i: int| 0 <= i < r@.lcd.len() ==> r@.lcd[i] == 0,
    {
        let zeros: [u8; 4] = [0u8, 0u8, 0u8, 0u8];
        let blank = SpriteAttribute::new(&zeros);
        Ppu {
            mode_cycle_count: 0,
            scy: Register::new(SCY_REG),
            scx: Register::new(SCX_REG),
            ly: Register::new(LY_REG),
            lyc: Register::new(LYC_REG),
            dma: Register::new(DMA_REG),
            bgp: Register::new(BGP_REG),
            obp0: Register::new(OBP0_REG),
            obp1: Register::new(OBP1_REG),
            wy: Register::new(WY_REG),
            wx: Register::new(WX_REG),
            lcd_control: Register::new(LCD_CONTROL_REG),
            lcd_status: Register::new(LCD_STATUS_REG),
            sprite_attributes: vec![blank; 40],
            lcd: Lcd::new(),
        }
    }

    /// The four colours of a palette register, for colour numbers 0-3.
    pub fn read_palette(byte: u8) -> (r: [u8; 4])
        ensures
            r@ == seq![byte & 0x03, (byte >> 2u8) & 0x03, (byte >> 4u8) & 0x03, byte >> 6u8],
            forall|i: int| 0 <= i < 4 ==> #[trigger] r@[i] < 4,
    {
        proof { crate::bits::lemma_byte_bits(byte); }
        [byte & 0x03, (byte >> 2u8) & 0x03, (byte >> 4u8) & 0x03, byte >> 6u8]
    }

    /// Moves LY to the next line and returns it.
    pub fn increment_ly(&self, mmu: &mut Mmu) -> (r: u8)
        ensures
            final(mmu)@ == increment_ly_spec(old(mmu)@),
            r == next_ly(ly_of(old(mmu)@)),
    {
        let mut new_ly = mmu.read_8_ram(LY_REG, Caller::PPU).wrapping_add(1);
        if new_ly >= 154 {
            new_ly = 0;
        }
        mmu.write_8_ram(LY_REG, new_ly, Caller::PPU)
    }

    /// Puts the mode into STAT and requests the interrupts it enables.
    pub fn set_stat_mode(&self, mmu: &mut Mmu, new_mode: StatMode, interrupts: &Interrupts)
        requires
            self.wf(),
            interrupts.wf(),
        ensures
            final(mmu)@ == set_stat_mode_spec(old(mmu)@, new_mode),
    {
        let curr_value = self.lcd_status.read(mmu, Caller::PPU);
        let new_value = (curr_value & 0xFC) | new_mode.number();
        self.lcd_status.write(mmu, new_value, Caller::PPU);

        let lcd_stat = InterruptRegBit::LcdStat.bit();
        match new_mode {
            StatMode::HBlank => {
                if self.lcd_status.check_bit(mmu, LcdStatRegBit::HBlankInterruptEnabled.bit(), Caller::PPU) {
                    interrupts.requested.set_bit(mmu, lcd_stat, true, Caller::PPU);
                }
            },
            StatMode::VBlank => {
                interrupts.requested.set_bit(mmu, InterruptRegBit::VBlank.bit(), true, Caller::PPU);
                if self.lcd_status.check_bit(mmu, LcdStatRegBit::VBlankInterruptEnabled.bit(), Caller::PPU) {
                    interrupts.requested.set_bit(mmu, lcd_stat, true, Caller::PPU);
                }
                if self.lcd_status.check_bit(mmu, LcdStatRegBit::OamInterruptEnabled.bit(), Caller::PPU) {
                    interrupts.requested.set_bit(mmu, lcd_stat, true, Caller::PPU);
                }
            },
            StatMode::OamSearch => {
                if self.lcd_status.check_bit(mmu, LcdStatRegBit::OamInterruptEnabled.bit(), Caller::PPU) {
                    interrupts.requested.set_bit(mmu, lcd_stat, true, Caller::PPU);
                }
            },
            StatMode::PixelTransfer => {},
        }
    }

    /// Ends the current mode: resets the mode's cycle count and enters the next mode.
    pub fn move_to_next_stat_mode(&mut self, mmu: &mut Mmu, interrupts: &Interrupts, curr_mode: StatMode)
        requires
            old(self).wf(),
            interrupts.wf(),
        ensures
            final(self).wf(),
            final(self)@ == (PpuView { mode_cycle_count: 0, ..old(self)@ }),
            final(mmu)@ == next_mode_spec(old(mmu)@, curr_mode),
            curr_mode == StatMode::PixelTransfer || curr_mode == StatMode::OamSearch
                ==> ly_of(final(mmu)@) == ly_of(old(mmu)@),
    {
        proof {
            reveal(next_mode_spec);
        }
        self.mode_cycle_count = 0;

        match curr_mode {
            StatMode::OamSearch => {
                self.set_stat_mode(mmu, StatMode::PixelTransfer, interrupts);
            },
            StatMode::PixelTransfer => {
                self.set_stat_mode(mmu, StatMode::HBlank, interrupts);
            },
            StatMode::HBlank => {
                let ly = self.increment_ly(mmu);
                if ly < 144 {
                    self.set_stat_mode(mmu, StatMode::OamSearch, interrupts);
                } else {
                    self.set_stat_mode(mmu, StatMode::VBlank, interrupts);
                }
            },
            StatMode::VBlank => {
                let ly = self.increment_ly(mmu);
                if ly == 0 {
                    self.set_stat_mode(mmu, StatMode::OamSearch, interrupts);
                }
            },
        }
    }

    /// One step of an OAM DMA transfer, if one is under way.
    /// Whether an OAM DMA step is defined: its source byte can be read.
    pub fn can_oam_dma(&self, mmu: &Mmu) -> (r: bool)
        ensures
            r == oam_dma_ok(mmu@),
    {
        match mmu.oam_dma_src_addr {
            Some(src) => src < 0xFFFF && mmu.can_read_8(src),
            None => true,
        }
    }

    /// Whether a PPU step of `cycles` is defined: the mode's cycle count does
    /// not overflow, and a line is drawn only for LY below 144.
    pub fn can_step(&self, cycles: u16, mmu: &Mmu) -> (r: bool)
        requires
            self.wf(),
        ensures
            r == ppu_step_ok(self@, mmu@, cycles),
    {
        if self.mode_cycle_count > usize::MAX - cycles as usize {
            return false;
        }
        if self.lcd_control.check_bit(mmu, LcdControlRegBit::LcdAndPpuEnabled.bit(), Caller::PPU) {
            let status = self.lcd_status.read(mmu, Caller::PPU);
            proof { crate::bits::lemma_byte_bits(status); }
            if stat_mode(status & 0x03) == StatMode::PixelTransfer {
                return self.ly.read(mmu, Caller::PPU) < 144;
            }
        }
        true
    }

    pub fn oam_dma(&self, mmu: &mut Mmu)
        requires
            self.wf(),
            oam_dma_ok(old(mmu)@),
        ensures
            final(mmu)@ == oam_dma_spec(old(mmu)@),
    {
        if let Some(src) = mmu.oam_dma_src_addr {
            let mut src_address = src;
            let value = mmu.read_8(src_address, Caller::PPU);
            let oam_address = OAM_START | (src_address & 0xFF);
            assert(OAM_START | (src_address & 0xFF) == (0xFE00 + src_address % 256) as u16) by (bit_vector);

            // Writes to OAM not allowed in certain PPU modes
            let lcd_status_value = self.lcd_status.read(mmu, Caller::PPU);
            proof { crate::bits::lemma_byte_bits(lcd_status_value); }
            let stat_mode = stat_mode(lcd_status_value & 0x03);
            if stat_mode != StatMode::PixelTransfer && stat_mode != StatMode::OamSearch {
                mmu.write_8(oam_address, value, Caller::PPU);
            }

            // Increment source address
            src_address += 1;
            proof { crate::bits::lemma_word_low_mask(src_address); }
            mmu.oam_dma_src_addr = if (src_address & 0xFF) > 0x9F {
                None
            } else {
                Some(src_address)
            };
        }
    }

    /// Reads 16 bytes of tile data from video RAM and decodes them.
    pub fn fetch_tile(mmu: &Mmu, tile_address: u16) -> (r: Tile)
        requires
            0x8000 <= tile_address,
            tile_address + 16 <= 0xA000,
        ensures
            forall|row: int, col: int| 0 <= row < 8 && 0 <= col < 8 ==> #[trigger] r@[row * 8 + col]
                == tile_color(mmu@.read_8((tile_address + row * 2) as u16, Caller::PPU),
                    mmu@.read_8((tile_address + row * 2 + 1) as u16, Caller::PPU), col),
    {
        let buffer = mmu.read_buffer(tile_address, tile_address + 16, Caller::PPU);
        let mut tile_bytes = [0u8; 16];
        for i in 0..16usize
            invariant
                buffer@.len() == 16,
                forall|j: int| 0 <= j < 16 ==> buffer@[j] == mmu@.read_8((tile_address + j) as u16, Caller::PPU),
                forall|j: int| 0 <= j < i ==> tile_bytes@[j] == buffer@[j],
        {
            tile_bytes[i] = buffer[i];
        }
        read_tile(tile_bytes)
    }

    /// Loads the 40 sprite attributes from OAM on line 0, when sprites are enabled.
    pub fn oam_search(&mut self, mmu: &Mmu)
        requires
            old(self).wf(),
        ensures
            final(self).wf(),
            final(self)@ == (PpuView { sprites: oam_search_spec(old(self)@.sprites, mmu@), ..old(self)@ }),
    {
        proof {
            reveal(oam_search_spec);
        }
        let ly = mmu.read_8_ram(LY_REG, Caller::PPU);
        if ly == 0 {
            let obj_enabled = self.lcd_control.check_bit(mmu, LcdControlRegBit::ObjEnabled.bit(), Caller::PPU);
            if obj_enabled {
                let attribute_data = mmu.read_buffer(OAM_START, OAM_END + 1, Caller::PPU);
                let ghost target = oam_search_spec(self@.sprites, mmu@);
                for i in 0..40usize
                    invariant
                        self.wf(),
                        attribute_data@.len() == 160,
                        forall|j: int| 0 <= j < 160 ==> attribute_data@[j] == mmu@.ram_at((OAM_START + j) as u16),
                        target == Seq::new(40, |k: int| sprite_attribute_spec(mmu@.ram_at((OAM_START + 4 * k) as u16),
                            mmu@.ram_at((OAM_START + 4 * k + 1) as u16), mmu@.ram_at((OAM_START + 4 * k + 2) as u16),
                            mmu@.ram_at((OAM_START + 4 * k + 3) as u16))),
                        forall|k: int| 0 <= k < i ==> self.sprite_attributes@[k] == target[k],
                        self.mode_cycle_count == old(self).mode_cycle_count,
                        self.lcd.data@ == old(self).lcd.data@,
                {
                    let data: [u8; 4] = [attribute_data[i * 4], attribute_data[i * 4 + 1],
                        attribute_data[i * 4 + 2], attribute_data[i * 4 + 3]];
                    let attr = SpriteAttribute::new(&data);
                    self.sprite_attributes.set(i, attr);
                }
                assert(self.sprite_attributes@ =~= target);
            }
        }
    }

    /// Draws the background, the window and the sprites of the current line.
    pub fn pixel_transfer(&mut self, mmu: &Mmu)
        requires
            old(self).wf(),
            ly_of(mmu@) < 144,
        ensures
            final(self).wf(),
            final(self)@ == (PpuView { lcd: pixel_transfer_spec(old(self)@.lcd, mmu@, old(self)@.sprites), ..old(self)@ }),
    {
        proof {
            reveal(pixel_transfer_spec);
        }
        self.draw_background_line(mmu);
        self.draw_window_line(mmu);
        self.draw_sprites_line(mmu);
    }

    pub fn draw_background_line(&mut self, mmu: &Mmu)
        requires
            old(self).wf(),
            ly_of(mmu@) < 144,
        ensures
            final(self).wf(),
            final(self)@ == (PpuView { lcd: if bit_set(lcdc(mmu@), 0) {
                bgwin_line_spec(old(self)@.lcd, mmu@, false) } else { old(self)@.lcd }, ..old(self)@ }),
    {
        if self.lcd_control.check_bit(mmu, LcdControlRegBit::BackgroundAndWindowEnabled.bit(), Caller::PPU) {
            self.draw_background_or_window_line(mmu, DrawMode::Background);
        }
    }

    pub fn draw_window_line(&mut self, mmu: &Mmu)
        requires
            old(self).wf(),
            ly_of(mmu@) < 144,
        ensures
            final(self).wf(),
            final(self)@ == (PpuView { lcd: if bit_set(lcdc(mmu@), 0) && bit_set(lcdc(mmu@), 5) {
                bgwin_line_spec(old(self)@.lcd, mmu@, true) } else { old(self)@.lcd }, ..old(self)@ }),
    {
        if self.lcd_control.check_bit(mmu, LcdControlRegBit::BackgroundAndWindowEnabled.bit(), Caller::PPU)
            && self.lcd_control.check_bit(mmu, LcdControlRegBit::WindowEnabled.bit(), Caller::PPU) {
            self.draw_background_or_window_line(mmu, DrawMode::Window);
        }
    }

    /// The colour number of one pixel of the tile map picture.
    pub fn map_pixel(mmu: &Mmu, tilemap_address: u16, index_mode_8000: bool, y_line: u8, xx: u8) -> (r: u8)
        requires
            tilemap_address == 0x9800 || tilemap_address == 0x9C00,
        ensures
            r == map_tile_color(mmu@, tilemap_address as int, index_mode_8000, y_line as int, xx as int),
            r < 4,
    {
        let tilemap_row = y_line / 8;
        let tile_row = y_line % 8;
        let tilemap_col = xx / 8;
        let tile_col = xx % 8;
        let tile_index = mmu.read_8(tilemap_address + tilemap_row as u16 * 32 + tilemap_col as u16, Caller::PPU);
        let tile_base: u16 = if index_mode_8000 {
            0x8000 + tile_index as u16 * 16
        } else if tile_index < 128 {
            0x9000 + tile_index as u16 * 16
        } else {
            0x9000 - (256 - tile_index as u16) * 16
        };
        let tile_address = tile_base + tile_row as u16 * 2;
        let tile_byte1 = mmu.read_8(tile_address, Caller::PPU);
        let tile_byte2 = mmu.read_8(tile_address + 1, Caller::PPU);
        pixel_color(tile_byte1, tile_byte2, tile_col)
    }

    /// Draws the current line of the background or of the window.
    #[verifier::spinoff_prover]
    #[verifier::rlimit(40)]
    pub fn draw_background_or_window_line(&mut self, mmu: &Mmu, mode: DrawMode)
        requires
            old(self).wf(),
            ly_of(mmu@) < 144,
            mode != DrawMode::Sprites,
        ensures
            final(self).wf(),
            final(self)@ == (PpuView { lcd: bgwin_line_spec(old(self)@.lcd, mmu@, mode == DrawMode::Window),
                ..old(self)@ }),
    {
        let ghost old_lcd = self.lcd.data@;
        let ghost window = mode == DrawMode::Window;
        let ly = mmu.read_8_ram(LY_REG, Caller::PPU);

        // The line of the picture, (LY + offset) mod 256.
        let y_line: u8 = match mode {
            DrawMode::Window => {
                let wy = self.wy.read(mmu, Caller::PPU);
                if wy >= ly {
                    proof {
                        assert(self.lcd.data@ =~= bgwin_line_spec(old_lcd, mmu@, window));
                    }
                    return;
                }
                ly - wy
            },
            _ => {
                let scy = self.scy.read(mmu, Caller::PPU);
                ((ly as u16 + scy as u16) % 256) as u8
            },
        };
        // The column offset, taken mod 256 so that it is not negative.
        let x_shift: u16 = match mode {
            DrawMode::Window => {
                let wx = self.wx.read(mmu, Caller::PPU);
                if wx >= (self.lcd.width as u8 + 7) {
                    proof {
                        assert(self.lcd.data@ =~= bgwin_line_spec(old_lcd, mmu@, window));
                    }
                    return;
                }
                263 - wx as u16
            },
            _ => self.scx.read(mmu, Caller::PPU) as u16,
        };

        let palette = Ppu::read_palette(self.bgp.read(mmu, Caller::PPU));
        let index_mode_8000 = self.lcd_control.check_bit(mmu, LcdControlRegBit::AddressingMode8000.bit(), Caller::PPU);
        let tilemap_at_9c00_bit = match mode {
            DrawMode::Window => LcdControlRegBit::WindowTilemapIsAt9C00.bit(),
            _ => LcdControlRegBit::BackgroundTilemapIsAt9C00.bit(),
        };
        let is_tilemap_at_9c00 = self.lcd_control.check_bit(mmu, tilemap_at_9c00_bit, Caller::PPU);
        let tilemap_address: u16 = if is_tilemap_at_9c00 { 0x9C00 } else { 0x9800 };
        let layer_offset: u8 = match mode {
            DrawMode::Window => 4,
            _ => 0,
        };
        let width = self.lcd.width;
        let row: usize = ly as usize * width;
        let ghost target = bgwin_line_spec(old_lcd, mmu@, window);
        assert(!window_hidden(mmu@) || !window);
        assert forall|xx: int| 0 <= xx < 256 implies #[trigger] bgwin_color(mmu@, window, xx)
            == map_tile_color(mmu@, tilemap_address as int, index_mode_8000, y_line as int, (xx + x_shift) % 256) by {
            if window {
                let wx = mmu@.ram_at(WX_REG);
                assert((xx + 7 - wx) % 256 == (xx + (263 - wx)) % 256) by {
                    vstd::arithmetic::div_mod::lemma_mod_add_multiples_vanish(xx + 7 - wx, 256);
                }
            }
        }

        for x in 0..width
            invariant
                width == LCD_WIDTH,
                self.wf(),
                self.mode_cycle_count == old(self).mode_cycle_count,
                self.sprite_attributes@ == old(self).sprite_attributes@,
                row == ly * 160,
                ly == ly_of(mmu@),
                ly < 144,
                x_shift <= 263,
                tilemap_address == 0x9800 || tilemap_address == 0x9C00,
                window == (mode == DrawMode::Window),
                mode != DrawMode::Sprites,
                layer_offset == (if window { 4u8 } else { 0u8 }),
                palette@ == seq![mmu@.ram_at(BGP_REG) & 0x03, (mmu@.ram_at(BGP_REG) >> 2u8) & 0x03,
                    (mmu@.ram_at(BGP_REG) >> 4u8) & 0x03, mmu@.ram_at(BGP_REG) >> 6u8],
                forall|i: int| 0 <= i < 4 ==> #[trigger] palette@[i] < 4,
                target.len() == old_lcd.len(),
                old_lcd.len() == 160 * 144,
                forall|i: int| 0 <= i < row ==> target[i] == old_lcd[i],
                forall|i: int| row + 160 <= i < old_lcd.len() ==> target[i] == old_lcd[i],
                forall|xx: int| 0 <= xx < 160 ==> #[trigger] target[row + xx] == if !window
                    || bgwin_color(mmu@, window, xx) > 0 {
                    (palette_color(mmu@.ram_at(BGP_REG), bgwin_color(mmu@, window, xx)) + (if window { 4int } else { 0 })) as u8
                } else {
                    old_lcd[row + xx]
                },
                forall|xx: int| 0 <= xx < 256 ==> #[trigger] bgwin_color(mmu@, window, xx)
                    == map_tile_color(mmu@, tilemap_address as int, index_mode_8000, y_line as int, (xx + x_shift) % 256),
                forall|i: int| 0 <= i < old_lcd.len() ==> #[trigger] self.lcd.data@[i]
                    == if row <= i < row + x { target[i] } else { old_lcd[i] },
        {
            let xx: u8 = ((x as u16 + x_shift) % 256) as u8;
            let color = Ppu::map_pixel(mmu, tilemap_address, index_mode_8000, y_line, xx);
            assert(color == bgwin_color(mmu@, window, x as int));
            if layer_offset == 0 || color > 0 {
                let pixel_color = palette[color as usize] + layer_offset;
                self.lcd.data.set(row + x, pixel_color);
            }
        }
        proof {
            assert(self.lcd.data@ =~= target);
        }
    }

    /// Draws the row of one sprite that falls on the current line, if any.
    #[verifier::spinoff_prover]
    #[verifier::rlimit(40)]
    pub fn draw_sprite_row(&mut self, mmu: &Mmu, attr: SpriteAttribute, ly: u8)
        requires
            old(self).wf(),
            ly == ly_of(mmu@),
            ly < 144,
        ensures
            final(self).wf(),
            final(self)@ == (PpuView { lcd: if sprite_visible(mmu@, attr) {
                sprite_cols_spec(old(self)@.lcd, mmu@, attr, 8) } else { old(self)@.lcd }, ..old(self)@ }),
    {
        let ghost old_lcd = self.lcd.data@;
        let tiledata_address: usize = 0x8000;
        let is_16_sprite = self.lcd_control.check_bit(mmu, LcdControlRegBit::SpriteSizeIs16.bit(), Caller::PPU);
        let sprite_top_y = attr.y.wrapping_sub(16);
        let sprite_height: u8 = if is_16_sprite { 16 } else { 8 };

        if sprite_top_y <= ly && ly < (sprite_top_y + sprite_height) {
            let palette = Ppu::read_palette(self.bgp.read(mmu, Caller::PPU));

            let mut tile_row_n = (ly - sprite_top_y) as usize;
            if attr.flip_y {
                tile_row_n = sprite_height as usize - tile_row_n - 1;
            }

            let tile_row: usize;
            let tile = if tile_row_n < 8 {
                let tile_index_1 = (if is_16_sprite { attr.tile_index & 0xFE } else { attr.tile_index }) as usize;
                let tile_address_1 = (tiledata_address + tile_index_1 * 16) as u16;
                tile_row = tile_row_n;
                Ppu::fetch_tile(mmu, tile_address_1)
            } else {
                let tile_index_2 = (if is_16_sprite { attr.tile_index | 0x01 } else { attr.tile_index }) as usize;
                let tile_address_2 = (tiledata_address + tile_index_2 * 16) as u16;
                tile_row = tile_row_n - 8;
                Ppu::fetch_tile(mmu, tile_address_2)
            };
            assert(forall|col: int| 0 <= col < 8 ==> #[trigger] tile@[tile_row * 8 + col]
                == sprite_col_color(mmu@, attr, col) && tile@[tile_row * 8 + col] < 4) by {
                reveal(sprite_col_color);
            }

            let width = self.lcd.width;
            let row: usize = ly as usize * width;
            for tile_col in 0..8u8
                invariant
                    width == LCD_WIDTH,
                    self.wf(),
                    self.mode_cycle_count == old(self).mode_cycle_count,
                    self.sprite_attributes@ == old(self).sprite_attributes@,
                    row == ly * 160,
                    ly == ly_of(mmu@),
                    ly < 144,
                    tile_row < 8,
                    forall|col: int| 0 <= col < 8 ==> #[trigger] tile@[tile_row * 8 + col]
                        == sprite_col_color(mmu@, attr, col) && tile@[tile_row * 8 + col] < 4,
                    palette@ == seq![mmu@.ram_at(BGP_REG) & 0x03, (mmu@.ram_at(BGP_REG) >> 2u8) & 0x03,
                        (mmu@.ram_at(BGP_REG) >> 4u8) & 0x03, mmu@.ram_at(BGP_REG) >> 6u8],
                    forall|i: int| 0 <= i < 4 ==> #[trigger] palette@[i] < 4,
                    self.lcd.data@ == sprite_cols_spec(old_lcd, mmu@, attr, tile_col as int),
            {
                let color_i = tile[tile_row * 8 + tile_col as usize];
                self.draw_sprite_pixel(mmu, attr, tile_col, color_i, &palette, row);
            }
        }
    }

    /// Draws one pixel of a sprite's row: one of colour number above 0 that
    /// falls on the screen.
    pub fn draw_sprite_pixel(&mut self, mmu: &Mmu, attr: SpriteAttribute, tile_col: u8, color_i: u8,
        palette: &[u8; 4], row: usize)
        requires
            old(self).wf(),
            tile_col < 8,
            color_i == sprite_col_color(mmu@, attr, tile_col as int),
            color_i < 4,
            ly_of(mmu@) < 144,
            row == ly_of(mmu@) * 160,
            palette@ == seq![mmu@.ram_at(BGP_REG) & 0x03, (mmu@.ram_at(BGP_REG) >> 2u8) & 0x03,
                (mmu@.ram_at(BGP_REG) >> 4u8) & 0x03, mmu@.ram_at(BGP_REG) >> 6u8],
            forall|i: int| 0 <= i < 4 ==> #[trigger] palette@[i] < 4,
        ensures
            final(self).wf(),
            final(self).mode_cycle_count == old(self).mode_cycle_count,
            final(self).sprite_attributes@ == old(self).sprite_attributes@,
            final(self).lcd.data@ == sprite_col_step(old(self).lcd.data@, mmu@, attr, tile_col as int),
    {
        if color_i > 0 {
            let color = palette[color_i as usize];

            let has_priority = true;
            let mut x = attr.x.wrapping_sub(8);
            let x_offset = if attr.flip_x { 7 - tile_col } else { tile_col };
            x = x.wrapping_add(x_offset);
            assert(x == sprite_x(attr, tile_col as int));
            if (x as usize) < self.lcd.width {
                let bg_color = self.lcd.data[row + x as usize];
                if has_priority || bg_color == 0 {
                    self.lcd.data.set(row + x as usize, color + 8);
                }
            }
        }
    }

    /// Draws the sprites that fall on the current line, in OAM order.
    pub fn draw_sprites_line(&mut self, mmu: &Mmu)
        requires
            old(self).wf(),
            ly_of(mmu@) < 144,
        ensures
            final(self).wf(),
            final(self)@ == (PpuView { lcd: if bit_set(lcdc(mmu@), 1) {
                sprites_line_spec(old(self)@.lcd, mmu@, old(self)@.sprites, 40) } else { old(self)@.lcd },
                ..old(self)@ }),
    {
        if self.lcd_control.check_bit(mmu, LcdControlRegBit::ObjEnabled.bit(), Caller::PPU) {
            let ghost old_lcd = self.lcd.data@;
            let ghost sprites = self.sprite_attributes@;
            let ly = mmu.read_8_ram(LY_REG, Caller::PPU);
            for i in 0..40usize
                invariant
                    self.wf(),
                    self.mode_cycle_count == old(self).mode_cycle_count,
                    self.sprite_attributes@ == sprites,
                    sprites == old(self).sprite_attributes@,
                    ly == ly_of(mmu@),
                    ly < 144,
                    self.lcd.data@ == sprites_line_spec(old_lcd, mmu@, sprites, i as int),
            {
                let attr = self.sprite_attributes[i];
                self.draw_sprite_row(mmu, attr, ly);
            }
        }
    }

    /// Sets STAT bit 2 when LY equals LYC, clears it otherwise, and on equality
    /// requests the STAT interrupt if STAT bit 6 enables it.
    pub fn compare_ly_lyc(&self, mmu: &mut Mmu, interrupts: &Interrupts)
        requires
            self.wf(),
            interrupts.wf(),
        ensures
            final(mmu)@ == lyc_compare_spec(old(mmu)@),
    {
        proof {
            reveal(lyc_compare_spec);
        }
        let ly = mmu.read_8_ram(LY_REG, Caller::PPU);
        let lyc = self.lyc.read(mmu, Caller::PPU);

        if ly == lyc {
            self.lcd_status.set_bit(mmu, LcdStatRegBit::LycEqLy.bit(), true, Caller::PPU);
            if self.lcd_status.check_bit(mmu, LcdStatRegBit::LycInterruptEnabled.bit(), Caller::PPU) {
                interrupts.requested.set_bit(mmu, InterruptRegBit::LcdStat.bit(), true, Caller::PPU);
            }
        } else {
            self.lcd_status.set_bit(mmu, LcdStatRegBit::LycEqLy.bit(), false, Caller::PPU);
        }
    }

    /// Advances the PPU by the cycles of the last instruction.
    pub fn step(&mut self, cycles: u16, interrupts: &Interrupts, mmu: &mut Mmu)
        requires
            old(self).wf(),
            interrupts.wf(),
            ppu_step_ok(old(self)@, old(mmu)@, cycles),
        ensures
            final(self).wf(),
            (final(self)@, final(mmu)@) == ppu_step_spec(old(self)@, old(mmu)@, cycles),
    {
        if self.lcd_control.check_bit(mmu, LcdControlRegBit::LcdAndPpuEnabled.bit(), Caller::PPU) {
            let status = self.lcd_status.read(mmu, Caller::PPU);
            proof { crate::bits::lemma_byte_bits(status); }
            let mode = stat_mode(status & 0x03);
            let duration = mode_duration(mode);

            // If time to do so, move to next stat mode
            if self.mode_cycle_count >= duration {
                self.move_to_next_stat_mode(mmu, interrupts, mode);
            }

            // Do mode-specific action
            match mode {
                StatMode::OamSearch => {
                    self.oam_search(mmu);
                },
                StatMode::PixelTransfer => {
                    self.pixel_transfer(mmu);
                },
                StatMode::HBlank => {},
                StatMode::VBlank => {},
            }

            self.compare_ly_lyc(mmu, interrupts);
        }

        self.mode_cycle_count += cycles as usize;
    }
}

/// LY stays below 154, and below 144 while the PPU searches OAM or transfers pixels.
pub open spec fn ly_in_range(m: MmuView) -> bool {
    &&& ly_of(m) < 154
    &&& (mode_of(m) == StatMode::OamSearch || mode_of(m) == StatMode::PixelTransfer) ==> ly_of(m) < 144
}

proof fn lemma_request_keeps_ppu_state(m: MmuView, bit: u8)
    requires
        m.wf(),
    ensures
        request_spec(m, bit).wf(),
        ly_of(request_spec(m, bit)) == ly_of(m),
        stat(request_spec(m, bit)) == stat(m),
        mode_of(request_spec(m, bit)) == mode_of(m),
{
}

proof fn lemma_set_stat_mode_enters(m: MmuView, mode: StatMode)
    requires
        m.wf(),
    ensures
        set_stat_mode_spec(m, mode).wf(),
        mode_of(set_stat_mode_spec(m, mode)) == mode,
        ly_of(set_stat_mode_spec(m, mode)) == ly_of(m),
{
    let x = stat(m);
    let n = stat_mode_number(mode);
    crate::bits::lemma_byte_pair_bits(n, x);
}

proof fn lemma_lyc_compare_keeps_mode(m: MmuView)
    requires
        m.wf(),
    ensures
        lyc_compare_spec(m).wf(),
        mode_of(lyc_compare_spec(m)) == mode_of(m),
        ly_of(lyc_compare_spec(m)) == ly_of(m),
{
    reveal(lyc_compare_spec);
    let x = stat(m);
    crate::bits::lemma_byte_bits(x);
}

/// A PPU step keeps LY below 154, and below 144 in OAM search and pixel transfer.
pub proof fn lemma_ppu_step_keeps_ly_in_range(p: PpuView, m: MmuView, cycles: u16)
    requires
        m.wf(),
        ly_in_range(m),
    ensures
        ly_in_range(ppu_step_spec(p, m, cycles).1),
        ppu_step_spec(p, m, cycles).1.wf(),
{
    if bit_set(lcdc(m), 7) {
        let mode = mode_of(m);
        let m1 = if p.mode_cycle_count >= mode_duration_spec(mode) { next_mode_spec(m, mode) } else { m };
        if p.mode_cycle_count >= mode_duration_spec(mode) {
            reveal(next_mode_spec);
            match mode {
                StatMode::OamSearch => lemma_set_stat_mode_enters(m, StatMode::PixelTransfer),
                StatMode::PixelTransfer => lemma_set_stat_mode_enters(m, StatMode::HBlank),
                StatMode::HBlank => {
                    let mi = increment_ly_spec(m);
                    if ly_of(mi) < 144 {
                        lemma_set_stat_mode_enters(mi, StatMode::OamSearch);
                    } else {
                        lemma_set_stat_mode_enters(mi, StatMode::VBlank);
                    }
                },
                StatMode::VBlank => {
                    let mi = increment_ly_spec(m);
                    if ly_of(mi) == 0 {
                        lemma_set_stat_mode_enters(mi, StatMode::OamSearch);
                    }
                },
            }
        }
        assert(m1.wf() && ly_in_range(m1));
        lemma_lyc_compare_keeps_mode(m1);
    }
}

/// An OAM DMA step keeps LY in range: it writes OAM only.
pub proof fn lemma_oam_dma_keeps_ly_in_range(m: MmuView)
    requires
        m.wf(),
        ly_in_range(m),
    ensures
        ly_in_range(oam_dma_spec(m)),
        oam_dma_spec(m).wf(),
{
}

/// A write by the CPU keeps LY in range: the CPU cannot change LY nor the mode bits.
pub broadcast proof fn lemma_cpu_write_keeps_ly_in_range(m: MmuView, address: u16, value: u8)
    requires
        m.wf(),
        ly_in_range(m),
    ensures
        ly_in_range(#[trigger] m.write_8(address, value, Caller::CPU)) && m.write_8(address, value, Caller::CPU).wf(),
{
    crate::mmu::lemma_cpu_cannot_write_ppu_state(m, address, value);
}

/// While LY is in range, a PPU step can only fault by overflowing its cycle count.
pub proof fn lemma_ly_in_range_step_ok(p: PpuView, m: MmuView, cycles: u16)
    requires
        ly_in_range(m),
        p.mode_cycle_count + cycles <= usize::MAX,
    ensures
        ppu_step_ok(p, m, cycles),
{
}

/// Where a background or window pixel takes its tile data from. With LCDC bit
/// 4 clear the tile index is signed: indices 0-127 address 0x9000 + 16 * index
/// and indices 128-255 (that is -128 to -1) address 0x8800 + 16 * (index - 128),
/// so that the data lies in 0x8800-0x97FF. With bit 4 set the index is unsigned
/// and the data lies at 0x8000 + 16 * index, in 0x8000-0x8FFF. Row `yy % 8` of
/// a tile is its pair of bytes at offset 2 * (yy % 8), and the two modes read
/// the same tile for indices 128-255.
pub proof fn lemma_map_tile_data_address(m: MmuView, map: int, yy: int, xx: int)
    ensures
        ({
            let index = m.read_8((map + (yy / 8) * 32 + xx / 8) as u16, Caller::PPU);
            let row = 2 * (yy % 8);
            let signed_base: int = if index < 128 { 0x9000 + 16 * index } else { 0x8800 + 16 * (index - 128) };
            let unsigned_base: int = 0x8000 + 16 * index;
            &&& 0x8800 <= signed_base && signed_base + 16 <= 0x9800
            &&& 0x8000 <= unsigned_base && unsigned_base + 16 <= 0x9000
            &&& map_tile_color(m, map, false, yy, xx) == tile_color(
                m.read_8((signed_base + row) as u16, Caller::PPU),
                m.read_8((signed_base + row + 1) as u16, Caller::PPU), xx % 8)
            &&& map_tile_color(m, map, true, yy, xx) == tile_color(
                m.read_8((unsigned_base + row) as u16, Caller::PPU),
                m.read_8((unsigned_base + row + 1) as u16, Caller::PPU), xx % 8)
            &&& index >= 128 ==> map_tile_color(m, map, true, yy, xx) == map_tile_color(m, map, false, yy, xx)
        }),
{
}

/// Colour number `c` (0-3) of a palette register is given by its bits 2c + 1
/// and 2c: number 0 by bits 1-0, number 3 by bits 7-6.
pub proof fn lemma_palette_color_bits(byte: u8, color: u8)
    requires
        color < 4,
    ensures
        ({
            let d: int = if color == 0 { 1 } else if color == 1 { 4 } else if color == 2 { 16 } else { 64 };
            palette_color(byte, color) as int == (byte as int / d) % 4
        }),
{
    assert(byte & 0x03 == byte % 4 && (byte >> 2u8) & 0x03 == (byte / 4) % 4
        && (byte >> 4u8) & 0x03 == (byte / 16) % 4 && byte >> 6u8 == byte / 64) by (bit_vector);
}

/// Every line of the frame lasts 456 cycles: a visible line spends 80 in OAM
/// search, 172 in pixel transfer and 204 in HBlank, and each VBlank line 456.
pub proof fn lemma_line_takes_456_cycles()
    ensures
        mode_duration_spec(StatMode::OamSearch) == 80,
        mode_duration_spec(StatMode::PixelTransfer) == 172,
        mode_duration_spec(StatMode::HBlank) == 204,
        mode_duration_spec(StatMode::OamSearch) + mode_duration_spec(StatMode::PixelTransfer)
            + mode_duration_spec(StatMode::HBlank) == 456,
        mode_duration_spec(StatMode::VBlank) == 456,
{
}

/// OAM DMA: a write of `v` to the DMA register starts a transfer from v * 0x100,
/// and its first step, when OAM search or pixel transfer do not lock OAM,
/// copies the source byte to 0xFE00 and moves the source on by one.
pub proof fn lemma_dma_start_and_first_step(m: MmuView, v: u8)
    requires
        m.wf(),
    ensures
        ({
            let m1 = m.write_8(DMA_REG, v, Caller::CPU);
            let source = (v as int * 256) as u16;
            let m2 = oam_dma_spec(m1);
            &&& m1.oam_dma_src_addr == Some(source)
            &&& mode_of(m1) != StatMode::PixelTransfer && mode_of(m1) != StatMode::OamSearch ==> {
                &&& m2.ram_at(0xFE00) == m1.read_8(source, Caller::PPU)
                &&& m2.oam_dma_src_addr == Some((source + 1) as u16)
            }
        }),
{
    let source = (v as int * 256) as u16;
    assert(source as int == v as int * 256);
    assert(source % 256 == 0);
}

} // verus!
