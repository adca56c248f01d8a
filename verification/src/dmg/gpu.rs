//! The picture unit: its registers, the scanline state machine and the
//! renderer. The divider, the timer and the interrupt request register run on
//! the same clock and are kept here too.
use crate::dmg::bits::{bit, lemma_mask_is_bit, test_bit};
use crate::dmg::intf::InterruptFlag;
use crate::dmg::timer::Timer;
use vstd::prelude::*;

verus! {

pub const VRAM_BEGIN: usize = 0x8000;

pub const VRAM_END: usize = 0x9fff;

pub const VRAM_SIZE: usize = 0x2000;

pub const OAM_SIZE: usize = 0xA0;

/// The number of pixels of a line.
pub const SCREEN_WIDTH: usize = 160;

/// The number of visible lines.
pub const SCREEN_HEIGHT: usize = 144;

/// The number of pixels of a frame.
pub const SCREEN_PIXELS: usize = 23040;

/// The number of clocks of a frame: 154 lines of 456 clocks.
pub const FRAME_CYCLES: u32 = 70224;

/// The control register of the display.
#[derive(Clone, Copy, Debug, PartialEq, Eq, Structural)]
pub struct Lcdc {
    pub bits: u8,
}

impl Lcdc {
    pub const LCD_DISPLAY_ENABLE: u8 = 0x80;

    pub const WINDOW_TILE_MAP_DISPLAY_SELECT: u8 = 0x40;

    pub const WINDOW_DISPLAY_ENABLE: u8 = 0x20;

    pub const BG_AND_WINDOW_TILE_DATA_SELECT: u8 = 0x10;

    pub const BG_TILE_MAP_DISPLAY_SELECT: u8 = 0x08;

    pub const OBJ_SIZE: u8 = 0x04;

    pub const OBJ_DISPLAY_ENABLE: u8 = 0x02;

    pub const BG_AND_WINDOW_DISPLAY: u8 = 0x01;

    pub open spec fn display_on(self) -> bool {
        bit(self.bits, 7)
    }

    /// The base of the tile map of the window.
    pub open spec fn window_map(self) -> u16 {
        if bit(self.bits, 6) {
            0x9c00
        } else {
            0x9800
        }
    }

    pub open spec fn window_on(self) -> bool {
        bit(self.bits, 5)
    }

    /// Whether tile numbers count up from 0x8000; else they are signed and
    /// centred on 0x9000.
    pub open spec fn unsigned_tiles(self) -> bool {
        bit(self.bits, 4)
    }

    /// The base of the tile map of the background.
    pub open spec fn bg_map(self) -> u16 {
        if bit(self.bits, 3) {
            0x9c00
        } else {
            0x9800
        }
    }

    /// The height of a sprite: 8 or 16 lines.
    pub open spec fn sprite_height(self) -> u16 {
        if bit(self.bits, 2) {
            16
        } else {
            8
        }
    }

    pub open spec fn sprites_on(self) -> bool {
        bit(self.bits, 1)
    }

    pub open spec fn bg_on(self) -> bool {
        bit(self.bits, 0)
    }

    pub fn new() -> (r: Lcdc)
        ensures
            r.bits == 0x48,
    {
        Self { bits: 0b0100_1000 }
    }

    pub fn from_bits_truncate(value: u8) -> (r: Lcdc)
        ensures
            r.bits == value,
    {
        Self { bits: value }
    }

    pub fn contains(&self, mask: u8) -> (r: bool)
        ensures
            r == (self.bits & mask == mask),
    {
        self.bits & mask == mask
    }

    pub fn lcd_display_enable(&self) -> (r: bool)
        ensures
            r == self.display_on(),
    {
        proof {
            lemma_mask_is_bit(self.bits);
        }
        self.contains(Lcdc::LCD_DISPLAY_ENABLE)
    }

    pub fn window_tile_map_display_select(&self) -> (r: u16)
        ensures
            r == self.window_map(),
    {
        proof {
            lemma_mask_is_bit(self.bits);
        }
        if self.contains(Lcdc::WINDOW_TILE_MAP_DISPLAY_SELECT) {
            0x9c00
        } else {
            0x9800
        }
    }

    pub fn window_display_enable(&self) -> (r: bool)
        ensures
            r == self.window_on(),
    {
        proof {
            lemma_mask_is_bit(self.bits);
        }
        self.contains(Lcdc::WINDOW_DISPLAY_ENABLE)
    }

    pub fn bg_and_window_tile_data_select(&self) -> (r: u16)
        ensures
            r == if self.unsigned_tiles() {
                0x8000u16
            } else {
                0x8800u16
            },
    {
        proof {
            lemma_mask_is_bit(self.bits);
        }
        if self.contains(Lcdc::BG_AND_WINDOW_TILE_DATA_SELECT) {
            0x8000
        } else {
            0x8800
        }
    }

    pub fn bg_and_window_display_enable(&self) -> (r: bool)
        ensures
            r == self.bg_on(),
    {
        proof {
            lemma_mask_is_bit(self.bits);
        }
        self.contains(Lcdc::BG_AND_WINDOW_DISPLAY)
    }

    pub fn bg_tile_map_display_select(&self) -> (r: u16)
        ensures
            r == self.bg_map(),
    {
        proof {
            lemma_mask_is_bit(self.bits);
        }
        if self.contains(Lcdc::BG_TILE_MAP_DISPLAY_SELECT) {
            0x9c00
        } else {
            0x9800
        }
    }

    pub fn obj_display_enable(&self) -> (r: bool)
        ensures
            r == self.sprites_on(),
    {
        proof {
            lemma_mask_is_bit(self.bits);
        }
        self.contains(Lcdc::OBJ_DISPLAY_ENABLE)
    }

    pub fn obj_size(&self) -> (r: u16)
        ensures
            r == self.sprite_height(),
    {
        proof {
            lemma_mask_is_bit(self.bits);
        }
        if self.contains(Lcdc::OBJ_SIZE) {
            16
        } else {
            8
        }
    }
}

/// One of the four shades of the screen.
#[derive(Debug, Copy, Clone, Eq, PartialEq, Structural)]
pub enum TilePixelValue {
    Black,
    LightGray,
    DarkGray,
    White,
}

impl TilePixelValue {
    /// The shade number, 0 to 3, that a palette gives to a colour number.
    pub open spec fn shade_number(palette: u8, value: u8) -> int {
        if value == 0 {
            (palette % 4) as int
        } else if value == 1 {
            ((palette / 4) % 4) as int
        } else if value == 2 {
            ((palette / 16) % 4) as int
        } else {
            (palette / 64) as int
        }
    }

    pub open spec fn of_number(shade: int) -> TilePixelValue {
        if shade == 0 {
            TilePixelValue::White
        } else if shade == 1 {
            TilePixelValue::LightGray
        } else if shade == 2 {
            TilePixelValue::DarkGray
        } else {
            TilePixelValue::Black
        }
    }

    /// The shade that a palette gives to a colour number.
    pub open spec fn shade(palette: u8, value: u8) -> TilePixelValue {
        Self::of_number(Self::shade_number(palette, value))
    }

    /// The pixel that the host shows for a shade.
    pub open spec fn rgb(self) -> u32 {
        match self {
            TilePixelValue::Black => 0xff091820,
            TilePixelValue::LightGray => 0xff88C070,
            TilePixelValue::DarkGray => 0xff356856,
            TilePixelValue::White => 0xffE0F8D0,
        }
    }

    pub fn from_palette_and_u8(palette: u8, value: u8) -> (r: TilePixelValue)
        requires
            value < 4,
        ensures
            r == Self::shade(palette, value),
    {
        let number: u8 = match value {
            0 => palette % 4,
            1 => (palette / 4) % 4,
            2 => (palette / 16) % 4,
            _ => palette / 64,
        };
        match number {
            0b00 => TilePixelValue::White,
            0b01 => TilePixelValue::LightGray,
            0b10 => TilePixelValue::DarkGray,
            _ => TilePixelValue::Black,
        }
    }

    pub fn to_rgb(&self) -> (r: u32)
        ensures
            r == self.rgb(),
    {
        match self {
            TilePixelValue::Black => 0xff091820,
            TilePixelValue::LightGray => 0xff88C070,
            TilePixelValue::DarkGray => 0xff356856,
            TilePixelValue::White => 0xffE0F8D0,
        }
    }
}

/// The phase of a scanline, as the status register numbers it.
#[derive(Debug, Copy, Clone, PartialEq, Eq, Structural)]
pub enum StatMode {
    HBlank0,
    VBlank1,
    OamRead2,
    Transfer3,
}

impl StatMode {
    pub open spec fn number(self) -> u8 {
        match self {
            StatMode::HBlank0 => 0,
            StatMode::VBlank1 => 1,
            StatMode::OamRead2 => 2,
            StatMode::Transfer3 => 3,
        }
    }

    /// The number of clocks that the phase lasts; for the vertical blank,
    /// per line.
    pub open spec fn duration(self) -> int {
        match self {
            StatMode::OamRead2 => 80,
            StatMode::Transfer3 => 172,
            StatMode::HBlank0 => 204,
            StatMode::VBlank1 => 456,
        }
    }

    /// The clock within its line at which the phase starts.
    pub open spec fn start(self) -> int {
        match self {
            StatMode::OamRead2 => 0,
            StatMode::Transfer3 => 80,
            StatMode::HBlank0 => 252,
            StatMode::VBlank1 => 0,
        }
    }

    pub fn to_u8(&self) -> (r: u8)
        ensures
            r == self.number(),
    {
        match self {
            StatMode::HBlank0 => 0,
            StatMode::VBlank1 => 1,
            StatMode::OamRead2 => 2,
            StatMode::Transfer3 => 3,
        }
    }

    pub fn cycles(&self) -> (r: u64)
        ensures
            r == self.duration(),
    {
        match self {
            StatMode::OamRead2 => 80,
            StatMode::Transfer3 => 172,
            StatMode::HBlank0 => 204,
            StatMode::VBlank1 => 456,
        }
    }
}

/// The status register: four interrupt enables and the phase.
#[derive(Debug, Copy, Clone, PartialEq, Eq, Structural)]
pub struct Stat {
    /// Bit 6: interrupt when LY equals LYC.
    pub enable_ly_interrupt: bool,
    /// Bit 5: interrupt on entering the OAM scan.
    pub enable_m2_interrupt: bool,
    /// Bit 4: interrupt on entering the vertical blank.
    pub enable_m1_interrupt: bool,
    /// Bit 3: interrupt on entering the horizontal blank.
    pub enable_m0_interrupt: bool,
    pub mode: StatMode,
}

impl Stat {
    pub fn new() -> (r: Stat)
        ensures
            r == (Stat {
                enable_ly_interrupt: false,
                enable_m2_interrupt: false,
                enable_m1_interrupt: false,
                enable_m0_interrupt: false,
                mode: StatMode::HBlank0,
            }),
    {
        Self {
            enable_ly_interrupt: false,
            enable_m2_interrupt: false,
            enable_m1_interrupt: false,
            enable_m0_interrupt: false,
            mode: StatMode::HBlank0,
        }
    }
}

/// A sprite that a line shows: its left edge, its top edge and its number in
/// the attribute memory.
pub type Sprite = (i32, i32, u16);

pub struct GPU {
    pub lcdc: Lcdc,
    pub stat: Stat,
    pub vram: [u8; VRAM_SIZE],
    pub oam: [u8; OAM_SIZE],
    pub scy: u8,
    pub scx: u8,
    pub wy: u8,
    pub wx: u8,
    pub ly: u8,
    pub lc: u8,
    pub bgp: u8,
    pub pal0: u8,
    pub pal1: u8,
    /// DIV, TIMA, TMA and TAC.
    pub timer: Timer,
    /// The clocks spent in the current phase.
    pub cycles: u32,
    pub enable_debug_override: bool,
    pub interrupt_flag: InterruptFlag,
}

impl GPU {
    /// The state at power-on.
    pub open spec fn initial(self) -> bool {
        &&& self.lcdc.bits == 0x48
        &&& self.stat == (Stat {
            enable_ly_interrupt: false,
            enable_m2_interrupt: false,
            enable_m1_interrupt: false,
            enable_m0_interrupt: false,
            mode: StatMode::HBlank0,
        })
        &&& forall|i: int| 0 <= i < VRAM_SIZE ==> self.vram[i] == 0
        &&& forall|i: int| 0 <= i < OAM_SIZE ==> self.oam[i] == 0
        &&& self.scy == 0 && self.scx == 0 && self.wy == 0 && self.wx == 0
        &&& self.ly == 0 && self.lc == 0 && self.bgp == 0 && self.pal0 == 0 && self.pal1 == 0
        &&& self.timer == (Timer { counter: 0, tima: 0, tma: 0, tac: 0, clock: 0 })
        &&& self.cycles == 0
        &&& !self.enable_debug_override
        &&& self.interrupt_flag.bits == 0
    }

    /// The line counter and the phase agree, and the phase has not run over.
    pub open spec fn wf(self) -> bool {
        &&& self.ly <= 153
        &&& (self.stat.mode == StatMode::VBlank1) == (self.ly >= 144)
        &&& self.cycles < self.stat.mode.duration()
    }

    /// Where in the frame the unit stands: the line, the phase of the line
    /// and the clocks spent in the phase.
    pub open spec fn phase(self) -> (u8, StatMode, u32) {
        (self.ly, self.stat.mode, self.cycles)
    }

    /// The line counter and the phase agree.
    pub open spec fn aligned(self) -> bool {
        self.ly <= 153 && (self.stat.mode == StatMode::VBlank1) == (self.ly >= 144)
    }

    /// The clock within the frame at which the current phase started.
    pub open spec fn phase_start(self) -> int {
        self.ly * 456 + self.stat.mode.start()
    }

    /// The clock within the frame, 0 to 70223, that the unit stands at.
    pub open spec fn position(self) -> int {
        self.phase_start() + self.cycles
    }

    /// LY as a read reports it: 0 while the display is off; while it is on,
    /// the line counter, or line 144 in the trace mode.
    pub open spec fn ly_read(self) -> u8 {
        if !self.lcdc.display_on() {
            0
        } else if self.enable_debug_override {
            0x90
        } else {
            self.ly
        }
    }

    /// The phase as a read reports it: the horizontal blank while the display
    /// is off.
    pub open spec fn mode_read(self) -> StatMode {
        if !self.lcdc.display_on() {
            StatMode::HBlank0
        } else {
            self.stat.mode
        }
    }

    /// The status register as a read reports it.
    pub open spec fn stat_byte(self) -> u8 {
        ((if self.stat.enable_ly_interrupt {
            0x40int
        } else {
            0
        }) + (if self.stat.enable_m2_interrupt {
            0x20int
        } else {
            0
        }) + (if self.stat.enable_m1_interrupt {
            0x10int
        } else {
            0
        }) + (if self.stat.enable_m0_interrupt {
            0x08int
        } else {
            0
        }) + (if self.ly == self.lc {
            0x04int
        } else {
            0
        }) + self.mode_read().number()) as u8
    }

    pub open spec fn read_spec(self, addr: u16) -> u8 {
        if 0x8000 <= addr <= 0x9fff {
            self.vram[addr - 0x8000]
        } else if 0xfe00 <= addr <= 0xfe9f {
            self.oam[addr - 0xfe00]
        } else if addr == 0xff40 {
            self.lcdc.bits
        } else if addr == 0xff41 {
            self.stat_byte()
        } else if addr == 0xff42 {
            self.scy
        } else if addr == 0xff43 {
            self.scx
        } else if addr == 0xff44 {
            self.ly_read()
        } else if addr == 0xff45 {
            self.lc
        } else if addr == 0xff47 {
            self.bgp
        } else if addr == 0xff48 {
            self.pal0
        } else if addr == 0xff49 {
            self.pal1
        } else if addr == 0xff4a {
            self.wx
        } else if addr == 0xff4b {
            self.wy
        } else if 0xff04 <= addr <= 0xff07 {
            self.timer.read_spec(addr)
        } else if addr == 0xff0f {
            self.interrupt_flag.bits
        } else {
            0xff
        }
    }

    /// The unit after a write. LY is read-only; the phase bits of the status
    /// register are too.
    pub open spec fn write_spec(self, addr: u16, value: u8) -> GPU {
        if 0x8000 <= addr <= 0x9fff {
            GPU { vram: vstd::array::spec_array_update(self.vram, addr - 0x8000, value), ..self }
        } else if 0xfe00 <= addr <= 0xfe9f {
            GPU { oam: vstd::array::spec_array_update(self.oam, addr - 0xfe00, value), ..self }
        } else if addr == 0xff40 {
            GPU { lcdc: Lcdc { bits: value }, ..self }
        } else if addr == 0xff41 {
            GPU {
                stat: Stat {
                    enable_ly_interrupt: bit(value, 6),
                    enable_m2_interrupt: bit(value, 5),
                    enable_m1_interrupt: bit(value, 4),
                    enable_m0_interrupt: bit(value, 3),
                    mode: self.stat.mode,
                },
                ..self
            }
        } else if addr == 0xff42 {
            GPU { scy: value, ..self }
        } else if addr == 0xff43 {
            GPU { scx: value, ..self }
        } else if addr == 0xff45 {
            GPU { lc: value, ..self }
        } else if addr == 0xff47 {
            GPU { bgp: value, ..self }
        } else if addr == 0xff48 {
            GPU { pal0: value, ..self }
        } else if addr == 0xff49 {
            GPU { pal1: value, ..self }
        } else if addr == 0xff4a {
            GPU { wx: value, ..self }
        } else if addr == 0xff4b {
            GPU { wy: value, ..self }
        } else if 0xff04 <= addr <= 0xff07 {
            GPU { timer: self.timer.write_spec(addr, value), ..self }
        } else if addr == 0xff0f {
            GPU { interrupt_flag: InterruptFlag { bits: value & 0x1f }, ..self }
        } else {
            self
        }
    }

    /// The unit with the request lines of `mask` raised.
    pub open spec fn raise(self, mask: u8) -> GPU {
        GPU { interrupt_flag: InterruptFlag { bits: self.interrupt_flag.bits | mask }, ..self }
    }

    pub open spec fn raise_if(self, wanted: bool, mask: u8) -> GPU {
        if wanted {
            self.raise(mask)
        } else {
            self
        }
    }

    pub open spec fn with_mode(self, mode: StatMode) -> GPU {
        GPU { stat: Stat { mode, ..self.stat }, ..self }
    }

    /// The unit on a new line; the status interrupt is requested when the
    /// line equals LYC and that interrupt is enabled.
    pub open spec fn with_line(self, ly: u8) -> GPU {
        (GPU { ly, ..self }).raise_if(
            self.stat.enable_ly_interrupt && ly == self.lc,
            InterruptFlag::LCD_STAT,
        )
    }

    /// The unit after `cycles` clocks of the divider and the timer.
    pub open spec fn handle_timer_spec(self, cycles: u32) -> GPU {
        let (timer, overflow) = self.timer.advance_spec(cycles);
        (GPU { timer, ..self }).raise_if(overflow, InterruptFlag::TIMER)
    }

    /// The unit at the end of its phase, in the next one: the OAM scan, the
    /// transfer and the horizontal blank follow each other on the 144 visible
    /// lines; ten lines of vertical blank follow line 143.
    pub open spec fn leave_mode(self) -> GPU {
        match self.stat.mode {
            StatMode::OamRead2 => self.with_mode(StatMode::Transfer3),
            StatMode::Transfer3 => self.with_mode(StatMode::HBlank0).raise_if(
                self.stat.enable_m0_interrupt,
                InterruptFlag::LCD_STAT,
            ),
            StatMode::HBlank0 => {
                if self.ly >= 143 {
                    self.with_line(144).with_mode(StatMode::VBlank1).raise(
                        InterruptFlag::V_BLANK,
                    ).raise_if(self.stat.enable_m1_interrupt, InterruptFlag::LCD_STAT)
                } else {
                    self.with_line((self.ly + 1) as u8).with_mode(StatMode::OamRead2).raise_if(
                        self.stat.enable_m2_interrupt,
                        InterruptFlag::LCD_STAT,
                    )
                }
            },
            StatMode::VBlank1 => {
                if self.ly >= 153 {
                    let g = self.with_line(0);
                    (GPU {
                        interrupt_flag: InterruptFlag {
                            bits: g.interrupt_flag.bits & !InterruptFlag::V_BLANK,
                        },
                        ..g
                    }).with_mode(StatMode::OamRead2).raise_if(
                        self.stat.enable_m2_interrupt,
                        InterruptFlag::LCD_STAT,
                    )
                } else {
                    self.with_line((self.ly + 1) as u8)
                }
            },
        }
    }

    /// Whether leaving the current phase draws the current line.
    pub open spec fn draws_on_leave(self) -> bool {
        self.stat.mode == StatMode::Transfer3 && self.ly < 144
    }

    /// Whether leaving the current phase completes a frame.
    pub open spec fn completes_frame_on_leave(self) -> bool {
        self.stat.mode == StatMode::HBlank0 && self.ly >= 143
    }

    /// The unit, the frame buffer and the frame signal after the phases that
    /// `dots` clocks in the current phase run through.
    pub open spec fn run(self, dots: int, buffer: Seq<u32>, ready: bool) -> (GPU, Seq<u32>, bool)
        decreases dots,
    {
        if dots < self.stat.mode.duration() {
            (GPU { cycles: dots as u32, ..self }, buffer, ready)
        } else {
            self.leave_mode().run(
                dots - self.stat.mode.duration(),
                if self.draws_on_leave() {
                    self.rendered(buffer)
                } else {
                    buffer
                },
                ready || self.completes_frame_on_leave(),
            )
        }
    }

    /// The unit, the frame buffer and the frame signal after `elapsed`
    /// clocks. While the display is off only the timer runs.
    pub open spec fn next_spec(self, elapsed: u32, buffer: Seq<u32>) -> (GPU, Seq<u32>, bool) {
        let timed = self.handle_timer_spec(elapsed);
        if timed.lcdc.display_on() {
            timed.run(timed.cycles + elapsed, buffer, false)
        } else {
            (timed, buffer, false)
        }
    }

    /// The address of the tile data of tile `number`.
    pub open spec fn tile_data(self, number: u8) -> u16 {
        if self.lcdc.unsigned_tiles() {
            (0x8000 + number * 16) as u16
        } else {
            (0x8800 + ((number + 128) % 256) * 16) as u16
        }
    }

    /// The address of the tile data for the point `(x, y)` of the tile map at
    /// `map`.
    pub open spec fn tile_location(self, map: u16, x: u8, y: u8) -> u16 {
        self.tile_data(self.read_spec((map + (y / 8) * 32 + x / 8) as u16))
    }

    /// The colour number, 0 to 3, of the pixel in row `tile_y` and column
    /// `tile_x` of the tile data at `location`. The first byte of a row gives
    /// the low bit, the second the high bit, the leftmost pixel in bit 7.
    pub open spec fn color_id(self, location: u16, tile_y: u8, tile_x: u8) -> u8 {
        let low = self.read_spec((location + tile_y * 2) as u16);
        let high = self.read_spec((location + tile_y * 2 + 1) as u16);
        ((if bit(low, (7 - tile_x) as nat) {
            1int
        } else {
            0
        }) + (if bit(high, (7 - tile_x) as nat) {
            2int
        } else {
            0
        })) as u8
    }

    /// The colour number at the point `(x, y)` of the tile map at `map`.
    pub open spec fn map_color_id(self, map: u16, x: u8, y: u8) -> u8 {
        self.color_id(self.tile_location(map, x, y), y % 8, x % 8)
    }

    /// Whether the window covers the pixel `x` of the current line.
    pub open spec fn window_covers(self, x: u8) -> bool {
        self.lcdc.window_on() && x + 7 >= self.wx && self.ly >= self.wy
    }

    /// The colour number of the background or window at pixel `x` of the
    /// current line; 0 where neither is shown.
    pub open spec fn backdrop_color_id(self, x: u8) -> u8 {
        if self.window_covers(x) {
            self.map_color_id(
                self.lcdc.window_map(),
                (x + 7 - self.wx) as u8,
                (self.ly - self.wy) as u8,
            )
        } else if self.lcdc.bg_on() {
            self.map_color_id(
                self.lcdc.bg_map(),
                ((x + self.scx) % 256) as u8,
                ((self.ly + self.scy) % 256) as u8,
            )
        } else {
            0
        }
    }

    /// The shade of the background or window at pixel `x`; white where
    /// neither is shown.
    pub open spec fn backdrop_shade(self, x: u8) -> TilePixelValue {
        if self.window_covers(x) || self.lcdc.bg_on() {
            TilePixelValue::shade(self.bgp, self.backdrop_color_id(x))
        } else {
            TilePixelValue::White
        }
    }

    /// Sprite `i` of the attribute memory.
    pub open spec fn sprite(self, i: int) -> Sprite {
        ((self.oam[4 * i + 1] - 8) as i32, (self.oam[4 * i] - 16) as i32, i as u16)
    }

    /// Whether sprite `i` has a row on `line`.
    pub open spec fn on_line(self, i: int, line: int) -> bool {
        self.oam[4 * i] - 16 <= line < self.oam[4 * i] - 16 + self.lcdc.sprite_height()
    }

    /// `s` with `e` put behind the last sprite that is not to the right of it.
    pub open spec fn insert_by_x(s: Seq<Sprite>, e: Sprite) -> Seq<Sprite>
        decreases s.len(),
    {
        if s.len() == 0 {
            seq![e]
        } else if s.last().0 <= e.0 {
            s.push(e)
        } else {
            Self::insert_by_x(s.drop_last(), e).push(s.last())
        }
    }

    /// The sprites among the first `upto` that `line` shows: the first ten
    /// with a row on it, from left to right, and in order of their number
    /// where they start at the same column.
    pub open spec fn visible_sprites(self, line: int, upto: nat) -> Seq<Sprite>
        decreases upto,
    {
        if upto == 0 {
            Seq::empty()
        } else {
            let before = self.visible_sprites(line, (upto - 1) as nat);
            if before.len() < 10 && self.on_line(upto - 1, line) {
                Self::insert_by_x(before, self.sprite(upto - 1))
            } else {
                before
            }
        }
    }

    /// Whether `s` names a sprite of the attribute memory, starts in a column
    /// that the attribute memory can give and has a row on `line`.
    pub open spec fn drawable(self, s: Sprite, line: int) -> bool {
        0 <= s.2 < 40 && -8 <= s.0 <= 247 && 0 <= line - s.1 < self.lcdc.sprite_height()
    }

    /// Whether `s` is a sprite of the attribute memory with a row on `line`.
    pub open spec fn shows(self, s: Sprite, line: int) -> bool {
        &&& 0 <= s.2 < 40
        &&& s == self.sprite(s.2 as int)
        &&& self.on_line(s.2 as int, line)
    }

    /// The colour number of sprite `s` at pixel `x` of `line`; 0 where the
    /// sprite has no column at `x`.
    pub open spec fn sprite_color_id(self, s: Sprite, x: u8, line: u8) -> u8 {
        if 0 <= x - s.0 <= 7 {
            let height = self.lcdc.sprite_height();
            let flags = self.oam[4 * s.2 + 3];
            let number = self.oam[4 * s.2 + 2];
            let tile: int = if height == 16 {
                number - number % 2
            } else {
                number as int
            };
            let row: int = if bit(flags, 6) {
                height - 1 - (line - s.1)
            } else {
                line - s.1
            };
            let column: int = if bit(flags, 5) {
                7 - (x - s.0)
            } else {
                x - s.0
            };
            self.color_id((0x8000 + tile * 16) as u16, row as u8, column as u8)
        } else {
            0
        }
    }

    /// The first sprite from `from` on that is opaque at pixel `x`.
    pub open spec fn first_opaque(self, sprites: Seq<Sprite>, from: int, x: u8, line: u8) -> Option<
        Sprite,
    >
        decreases sprites.len() - from,
    {
        if from < 0 || from >= sprites.len() {
            None
        } else if self.sprite_color_id(sprites[from], x, line) != 0 {
            Some(sprites[from])
        } else {
            self.first_opaque(sprites, from + 1, x, line)
        }
    }

    /// The shade that the sprites give to pixel `x`, if any does: the first
    /// opaque sprite decides, and it is hidden where it asks to stay behind a
    /// backdrop that is not of colour 0.
    pub open spec fn sprite_shade(
        self,
        sprites: Seq<Sprite>,
        x: u8,
        line: u8,
        backdrop_clear: bool,
    ) -> Option<TilePixelValue> {
        match self.first_opaque(sprites, 0, x, line) {
            Some(s) => {
                let flags = self.oam[4 * s.2 + 3];
                if !backdrop_clear && bit(flags, 7) {
                    None
                } else {
                    Some(
                        TilePixelValue::shade(
                            if bit(flags, 4) {
                                self.pal1
                            } else {
                                self.pal0
                            },
                            self.sprite_color_id(s, x, line),
                        ),
                    )
                }
            },
            None => None,
        }
    }

    /// The shade of pixel `x` of the current line.
    pub open spec fn pixel(self, x: u8) -> TilePixelValue {
        let covered = if self.lcdc.sprites_on() {
            self.sprite_shade(
                self.visible_sprites(self.ly as int, 40),
                x,
                self.ly,
                self.backdrop_color_id(x) == 0,
            )
        } else {
            None
        };
        match covered {
            Some(shade) => shade,
            None => self.backdrop_shade(x),
        }
    }

    /// The frame buffer with the current line drawn into it.
    #[verifier::opaque]
    pub open spec fn rendered(self, buffer: Seq<u32>) -> Seq<u32> {
        Seq::new(
            buffer.len(),
            |i: int|
                if self.ly * 160 <= i < self.ly * 160 + 160 {
                    self.pixel((i - self.ly * 160) as u8).rgb()
                } else {
                    buffer[i]
                },
        )
    }

    /// The frame buffer with the first 360 tiles of the tile data laid out 20
    /// to a row, through the background palette.
    pub open spec fn tiles_shown(self) -> Seq<u32> {
        Seq::new(
            SCREEN_PIXELS as nat,
            |i: int|
                TilePixelValue::shade(
                    self.bgp,
                    self.color_id(
                        (0x8000 + (((i / 160) / 8) * 20 + (i % 160) / 8) * 16) as u16,
                        ((i / 160) % 8) as u8,
                        (i % 8) as u8,
                    ),
                ).rgb(),
        )
    }
}


/// The number of frames that are completed while the unit moves on by
/// `elapsed` clocks from the clock `position` of a frame. A frame is complete
/// when line 144 starts, at clock 65664.
pub open spec fn frames_crossed(position: int, elapsed: int) -> int {
    (position + elapsed + 4560) / 70224 - (position + 4560) / 70224
}

/// Leaving a phase keeps the line counter and the phase in step and starts
/// the next phase where the last one ended, or at clock 0 after line 153.
pub proof fn lemma_leave_mode(g: GPU)
    requires
        g.aligned(),
    ensures
        g.leave_mode().aligned(),
        g.leave_mode().phase_start() == if g.stat.mode == StatMode::VBlank1 && g.ly == 153 {
            0
        } else {
            g.phase_start() + g.stat.mode.duration()
        },
        g.completes_frame_on_leave() == (g.phase_start() + g.stat.mode.duration() == 65664),
        0 <= g.phase_start(),
        g.phase_start() + g.stat.mode.duration() <= 70224,
{
}

/// Running through the phases changes neither the control register nor the
/// size of the frame buffer.
pub proof fn lemma_run_keeps(g: GPU, dots: int, buffer: Seq<u32>, ready: bool)
    requires
        dots >= 0,
    ensures
        g.run(dots, buffer, ready).0.lcdc == g.lcdc,
        g.run(dots, buffer, ready).0.enable_debug_override == g.enable_debug_override,
        g.run(dots, buffer, ready).1.len() == buffer.len(),
    decreases dots,
{
    let d = g.stat.mode.duration();
    if dots >= d {
        let drawn = if g.draws_on_leave() {
            g.rendered(buffer)
        } else {
            buffer
        };
        assert(drawn.len() == buffer.len()) by {
            reveal(GPU::rendered);
        }
        lemma_run_keeps(g.leave_mode(), dots - d, drawn, ready || g.completes_frame_on_leave());
    }
}

/// One phase of the count of completed frames: passing from the start of a
/// phase over its end counts a frame exactly when that end is clock 65664.
proof fn lemma_cross_step(start: int, duration: int, dots: int)
    requires
        0 <= start,
        0 < duration,
        start + duration <= 70224,
        duration <= dots,
        start + duration <= 65664 || start >= 65664,
    ensures
        (start + dots) % 70224 == ((if start + duration == 70224 {
            0
        } else {
            start + duration
        }) + (dots - duration)) % 70224,
        frames_crossed(start, dots) == (if start + duration == 65664 {
            1int
        } else {
            0
        }) + frames_crossed(
            if start + duration == 70224 {
                0
            } else {
                start + duration
            },
            dots - duration,
        ),
        frames_crossed(start, dots) >= 0,
{
}

/// Running through the phases keeps the line counter and the phase in step,
/// moves the position by the clocks that were run, modulo the frame, and
/// signals a frame exactly when the start of line 144 was passed.
pub proof fn lemma_run(g: GPU, dots: int, buffer: Seq<u32>, ready: bool)
    requires
        g.aligned(),
        dots >= 0,
    ensures
        g.run(dots, buffer, ready).0.wf(),
        g.run(dots, buffer, ready).0.position() == (g.phase_start() + dots) % 70224,
        g.run(dots, buffer, ready).2 == (ready || frames_crossed(g.phase_start(), dots) > 0),
    decreases dots,
{
    let d = g.stat.mode.duration();
    lemma_leave_mode(g);
    if dots >= d {
        let next = g.leave_mode();
        let drawn = if g.draws_on_leave() {
            g.rendered(buffer)
        } else {
            buffer
        };
        let flag = ready || g.completes_frame_on_leave();
        lemma_run(next, dots - d, drawn, flag);
        lemma_cross_step(g.phase_start(), d, dots);
    }
}

/// Over the clocks of one frame exactly one frame is completed, wherever in
/// the frame the count starts.
pub proof fn lemma_one_frame_per_period(position: int)
    requires
        0 <= position < 70224,
    ensures
        frames_crossed(position, 70224) == 1,
{
}

/// The frames completed over two stretches of clocks add up.
pub proof fn lemma_frames_add(position: int, first: int, second: int)
    requires
        0 <= position < 70224,
        first >= 0,
        second >= 0,
    ensures
        frames_crossed(position, first + second) == frames_crossed(position, first)
            + frames_crossed((position + first) % 70224, second),
{
}

/// Inserting behind position `at` is what [`GPU::insert_by_x`] does when `at`
/// separates the sprites that are not to the right of `e` from those that
/// are.
pub proof fn lemma_insert_by_x(s: Seq<Sprite>, e: Sprite, at: int)
    requires
        0 <= at <= s.len(),
        forall|k: int| at <= k < s.len() ==> s[k].0 > e.0,
        at > 0 ==> s[at - 1].0 <= e.0,
    ensures
        GPU::insert_by_x(s, e) == s.take(at).push(e) + s.skip(at),
    decreases s.len(),
{
    if at < s.len() {
        lemma_insert_by_x(s.drop_last(), e, at);
    }
}

/// Whether sprite `a` is drawn before sprite `b`: it starts further left, or
/// in the same column with the lower number.
pub open spec fn drawn_before(a: Sprite, b: Sprite) -> bool {
    a.0 < b.0 || (a.0 == b.0 && a.2 < b.2)
}

/// Whether every sprite of `s` is drawn before those behind it.
pub open spec fn in_draw_order(s: Seq<Sprite>) -> bool {
    forall|i: int, j: int| 0 <= i < j < s.len() ==> drawn_before(s[i], s[j])
}

/// The place at which [`GPU::insert_by_x`] puts `e`.
pub open spec fn insert_point(s: Seq<Sprite>, e: Sprite) -> int
    decreases s.len(),
{
    if s.len() == 0 {
        0
    } else if s.last().0 <= e.0 {
        s.len() as int
    } else {
        insert_point(s.drop_last(), e)
    }
}

/// The sprites from the insert point on start to the right of `e`, the one
/// before it does not.
pub proof fn lemma_insert_point(s: Seq<Sprite>, e: Sprite)
    ensures
        0 <= insert_point(s, e) <= s.len(),
        forall|k: int| insert_point(s, e) <= k < s.len() ==> s[k].0 > e.0,
        insert_point(s, e) > 0 ==> s[insert_point(s, e) - 1].0 <= e.0,
    decreases s.len(),
{
    if s.len() > 0 && s.last().0 > e.0 {
        let front = s.drop_last();
        lemma_insert_point(front, e);
        assert forall|k: int| insert_point(s, e) <= k < s.len() implies s[k].0 > e.0 by {
            if k < front.len() {
                assert(front[k] == s[k]);
            }
        }
    }
}

/// A sprite with a higher number than all of `s` is inserted where the draw
/// order wants it.
pub proof fn lemma_insert_keeps_order(s: Seq<Sprite>, e: Sprite)
    requires
        in_draw_order(s),
        forall|k: int| 0 <= k < s.len() ==> s[k].2 < e.2,
    ensures
        in_draw_order(GPU::insert_by_x(s, e)),
        GPU::insert_by_x(s, e).len() == s.len() + 1,
        forall|k: int|
            0 <= k < s.len() + 1 ==> GPU::insert_by_x(s, e)[k] == e || exists|m: int|
                0 <= m < s.len() && GPU::insert_by_x(s, e)[k] == s[m],
{
    let at = insert_point(s, e);
    lemma_insert_point(s, e);
    lemma_insert_by_x(s, e, at);
    let r = GPU::insert_by_x(s, e);
    assert forall|i: int, j: int| 0 <= i < j < r.len() implies drawn_before(r[i], r[j]) by {
        if j == at && i < at - 1 {
            assert(drawn_before(s[i], s[at - 1]));
        }
    }
}

/// The sprites that a line shows are at most ten sprites of the attribute
/// memory with a row on that line, ordered from left to right and by their
/// number where they start in the same column.
pub proof fn lemma_visible_sprites(g: GPU, line: int, upto: nat)
    requires
        upto <= 40,
    ensures
        g.visible_sprites(line, upto).len() <= 10,
        in_draw_order(g.visible_sprites(line, upto)),
        forall|k: int|
            0 <= k < g.visible_sprites(line, upto).len() ==> {
                &&& (#[trigger] g.visible_sprites(line, upto)[k]).2 < upto
                &&& g.shows(g.visible_sprites(line, upto)[k], line)
            },
    decreases upto,
{
    if upto > 0 {
        let before = g.visible_sprites(line, (upto - 1) as nat);
        lemma_visible_sprites(g, line, (upto - 1) as nat);
        if before.len() < 10 && g.on_line(upto - 1, line) {
            lemma_insert_keeps_order(before, g.sprite(upto - 1));
        }
    }
}

/// Puts `e` into the first `len` sprites of `sprites`, which are ordered from
/// left to right, behind the last one that is not to the right of it, and
/// returns its place.
fn insert_sprite(sprites: &mut [Sprite; 10], len: usize, e: Sprite) -> (at: usize)
    requires
        len < 10,
    ensures
        at <= len,
        final(sprites)@.take(len + 1) == GPU::insert_by_x(old(sprites)@.take(len as int), e),
        forall|k: int| 0 <= k < at ==> final(sprites)[k] == old(sprites)[k],
        final(sprites)[at as int] == e,
        forall|k: int| at < k <= len ==> final(sprites)[k] == old(sprites)[k - 1],
{
    let ghost before = sprites@;
    let mut j: usize = len;
    while j > 0 && sprites[j - 1].0 > e.0
        invariant
            j <= len < 10,
            forall|k: int| 0 <= k < j ==> sprites[k] == before[k],
            forall|k: int| j < k <= len ==> sprites[k] == before[k - 1],
            forall|k: int| j <= k < len ==> before[k].0 > e.0,
        decreases j,
    {
        sprites[j] = sprites[j - 1];
        j = j - 1;
    }
    sprites[j] = e;
    proof {
        lemma_insert_by_x(before.take(len as int), e, j as int);
    }
    j
}

impl GPU {
    pub fn new() -> (r: GPU)
        ensures
            r.initial(),
            r.wf(),
    {
        GPU {
            lcdc: Lcdc::new(),
            stat: Stat::new(),
            vram: [0u8; VRAM_SIZE],
            oam: [0u8; OAM_SIZE],
            scy: 0x00,
            scx: 0x00,
            wx: 0x00,
            wy: 0x00,
            ly: 0x00,
            lc: 0x00,
            bgp: 0x00,
            pal0: 0x00,
            pal1: 0x00,
            timer: Timer::new(),
            enable_debug_override: false,
            cycles: 0,
            interrupt_flag: InterruptFlag::empty(),
        }
    }

    /// Tells whether the line counter and the phase agree and the phase has
    /// not run over.
    pub fn is_consistent(&self) -> (r: bool)
        ensures
            r == self.wf(),
    {
        self.ly <= 153 && (self.stat.mode == StatMode::VBlank1) == (self.ly >= 144)
            && (self.cycles as u64) < self.stat.mode.cycles()
    }

    /// Makes every read of LY report line 144 while the display is on, as a
    /// trace comparison expects.
    pub fn initialize_gameboy_doctor(&mut self)
        ensures
            *final(self) == (GPU { enable_debug_override: true, ..*old(self) }),
    {
        self.enable_debug_override = true;
    }

    /// Runs the divider and the timer and requests the timer interrupt when
    /// TIMA overflows.
    pub fn handle_timer(&mut self, cycles: u32)
        ensures
            *final(self) == old(self).handle_timer_spec(cycles),
    {
        let overflow: bool = self.timer.advance(cycles);
        if overflow {
            self.interrupt_flag.insert(InterruptFlag::TIMER);
        }
    }

    fn set_line(&mut self, ly: u8)
        ensures
            *final(self) == old(self).with_line(ly),
    {
        self.ly = ly;
        if self.stat.enable_ly_interrupt && self.ly == self.lc {
            self.interrupt_flag.insert(InterruptFlag::LCD_STAT);
        }
    }

    /// Ends the current phase and enters the next one.
    fn enter_next_mode(&mut self)
        ensures
            *final(self) == old(self).leave_mode(),
    {
        match self.stat.mode {
            StatMode::OamRead2 => {
                self.stat.mode = StatMode::Transfer3;
            },
            StatMode::Transfer3 => {
                self.stat.mode = StatMode::HBlank0;
                if self.stat.enable_m0_interrupt {
                    self.interrupt_flag.insert(InterruptFlag::LCD_STAT);
                }
            },
            StatMode::HBlank0 => {
                if self.ly >= 143 {
                    self.set_line(144);
                    self.stat.mode = StatMode::VBlank1;
                    self.interrupt_flag.insert(InterruptFlag::V_BLANK);
                    if self.stat.enable_m1_interrupt {
                        self.interrupt_flag.insert(InterruptFlag::LCD_STAT);
                    }
                } else {
                    self.set_line(self.ly + 1);
                    self.stat.mode = StatMode::OamRead2;
                    if self.stat.enable_m2_interrupt {
                        self.interrupt_flag.insert(InterruptFlag::LCD_STAT);
                    }
                }
            },
            StatMode::VBlank1 => {
                if self.ly >= 153 {
                    self.set_line(0);
                    self.interrupt_flag.remove(InterruptFlag::V_BLANK);
                    self.stat.mode = StatMode::OamRead2;
                    if self.stat.enable_m2_interrupt {
                        self.interrupt_flag.insert(InterruptFlag::LCD_STAT);
                    }
                } else {
                    self.set_line(self.ly + 1);
                }
            },
        }
    }

    /// Advances the unit by `elapsed` clocks, draws into `buffer` each line
    /// whose transfer ends, and reports whether a frame was completed.
    pub fn next(&mut self, elapsed: u32, buffer: &mut [u32; SCREEN_PIXELS]) -> (frame_ready: bool)
        ensures
            (*final(self), final(buffer)@, frame_ready) == old(self).next_spec(
                elapsed,
                old(buffer)@,
            ),
            old(self).wf() ==> final(self).wf(),
            final(self).lcdc == old(self).lcdc,
            final(self).enable_debug_override == old(self).enable_debug_override,
            old(self).wf() && old(self).lcdc.display_on() ==> {
                &&& final(self).position() == (old(self).position() + elapsed) % 70224
                &&& frame_ready == (frames_crossed(old(self).position(), elapsed as int) > 0)
            },
            !old(self).lcdc.display_on() ==> !frame_ready && final(self).ly == old(self).ly
                && final(self).stat == old(self).stat && final(self).cycles == old(self).cycles,
    {
        self.handle_timer(elapsed);
        if !self.lcdc.lcd_display_enable() {
            return false;
        }
        let ghost timed = *self;
        proof {
            lemma_run_keeps(timed, timed.cycles + elapsed, old(buffer)@, false);
            if timed.wf() {
                lemma_run(timed, timed.cycles + elapsed, old(buffer)@, false);
            }
        }
        let mut dots: u64 = self.cycles as u64 + elapsed as u64;
        let mut should_render: bool = false;
        while dots >= self.stat.mode.cycles()
            invariant
                self.run(dots as int, buffer@, should_render) == timed.run(
                    timed.cycles + elapsed,
                    old(buffer)@,
                    false,
                ),
            decreases dots,
        {
            let spent: u64 = self.stat.mode.cycles();
            if self.stat.mode == StatMode::Transfer3 && self.ly < 144 {
                self.render_line_into_buffer(buffer);
            }
            if self.stat.mode == StatMode::HBlank0 && self.ly >= 143 {
                should_render = true;
            }
            self.enter_next_mode();
            dots = dots - spent;
        }
        self.cycles = dots as u32;
        should_render
    }

    /// LY reads 0 while the display is off.
    pub fn read_ly(&self) -> (r: u8)
        ensures
            r == self.ly_read(),
            self.wf() ==> r <= 153,
            !self.lcdc.display_on() ==> r == 0,
    {
        if !self.lcdc.lcd_display_enable() {
            0
        } else if self.enable_debug_override {
            // the line that a trace comparison expects
            0x90
        } else {
            self.ly
        }
    }

    /// While the display is off the phase reads as the horizontal blank.
    pub fn read_stat_mode(&self) -> (r: StatMode)
        ensures
            r == self.mode_read(),
    {
        if !self.lcdc.lcd_display_enable() {
            StatMode::HBlank0
        } else {
            self.stat.mode
        }
    }

    pub fn read_vram(&self, adr: u16) -> (r: u8)
        ensures
            r == self.read_spec(adr),
    {
        match adr {
            0x8000..=0x9fff => self.vram[(adr - 0x8000) as usize],
            0xfe00..=0xfe9f => self.oam[(adr - 0xfe00) as usize],
            0xff40 => self.lcdc.bits,
            0xff41 => {
                let bit6: u8 = if self.stat.enable_ly_interrupt {
                    0x40
                } else {
                    0x00
                };
                let bit5: u8 = if self.stat.enable_m2_interrupt {
                    0x20
                } else {
                    0x00
                };
                let bit4: u8 = if self.stat.enable_m1_interrupt {
                    0x10
                } else {
                    0x00
                };
                let bit3: u8 = if self.stat.enable_m0_interrupt {
                    0x08
                } else {
                    0x00
                };
                let bit2: u8 = if self.ly == self.lc {
                    0x04
                } else {
                    0x00
                };
                let mode: u8 = self.read_stat_mode().to_u8();
                bit6 + bit5 + bit4 + bit3 + bit2 + mode
            },
            0xff42 => self.scy,
            0xff43 => self.scx,
            0xff44 => self.read_ly(),
            0xff45 => self.lc,
            0xff47 => self.bgp,
            0xff48 => self.pal0,
            0xff49 => self.pal1,
            0xff4a => self.wx,
            0xff4b => self.wy,
            0xff04..=0xff07 => self.timer.read(adr),
            0xff0f => self.interrupt_flag.bits(),
            _ => 0xff,
        }
    }

    pub fn write_vram(&mut self, adr: u16, value: u8)
        ensures
            *final(self) == old(self).write_spec(adr, value),
            final(self).phase() == old(self).phase(),
    {
        match adr {
            0x8000..=0x9fff => {
                self.vram[(adr - 0x8000) as usize] = value;
            },
            0xfe00..=0xfe9f => {
                self.oam[(adr - 0xfe00) as usize] = value;
            },
            0xff40 => self.lcdc = Lcdc::from_bits_truncate(value),
            0xff41 => {
                self.stat.enable_ly_interrupt = test_bit(value, 6);
                self.stat.enable_m2_interrupt = test_bit(value, 5);
                self.stat.enable_m1_interrupt = test_bit(value, 4);
                self.stat.enable_m0_interrupt = test_bit(value, 3);
            },
            0xff42 => self.scy = value,
            0xff43 => self.scx = value,
            0xff45 => self.lc = value,
            0xff47 => self.bgp = value,
            0xff48 => self.pal0 = value,
            0xff49 => self.pal1 = value,
            0xff4a => self.wx = value,
            0xff4b => self.wy = value,
            0xff04..=0xff07 => self.timer.write(adr, value),
            0xff0f => self.interrupt_flag = InterruptFlag::from_bits_truncate(value),
            _ => {},
        }
    }

    /// The colour number of one pixel of a tile.
    fn get_color_id(&self, tile_location: u16, tile_y: u8, tile_x: u8) -> (r: u8)
        requires
            tile_x < 8,
            tile_location + tile_y * 2 + 1 <= 0xffff,
        ensures
            r == self.color_id(tile_location, tile_y, tile_x),
            r < 4,
    {
        let a: u8 = self.read_vram(tile_location + (tile_y as u16 * 2));
        let b: u8 = self.read_vram(tile_location + (tile_y as u16 * 2) + 1);
        let color_l: u8 = if test_bit(a, (7 - tile_x) as usize) {
            1
        } else {
            0
        };
        let color_h: u8 = if test_bit(b, (7 - tile_x) as usize) {
            2
        } else {
            0
        };
        color_h + color_l
    }

    /// The shade of one pixel of a tile through the background palette.
    pub fn get_pixel_color(&self, tile_location: u16, tile_y: u8, tile_x: u8) -> (r:
        TilePixelValue)
        requires
            tile_x < 8,
            tile_location + tile_y * 2 + 1 <= 0xffff,
        ensures
            r == TilePixelValue::shade(self.bgp, self.color_id(tile_location, tile_y, tile_x)),
    {
        let color: u8 = self.get_color_id(tile_location, tile_y, tile_x);
        TilePixelValue::from_palette_and_u8(self.bgp, color)
    }

    /// The address of the tile data for a point of the tile map at `map`.
    fn tile_location_in(&self, map: u16, x: u8, y: u8) -> (r: u16)
        requires
            map == 0x9800 || map == 0x9c00,
        ensures
            r == self.tile_location(map, x, y),
            0x8000 <= r <= 0x97f0,
    {
        let tile_base: u16 = self.lcdc.bg_and_window_tile_data_select();
        let tx: u16 = x as u16 / 8;
        let ty: u16 = y as u16 / 8;
        let title_addr: u16 = map + ty * 32 + tx;
        let tile_number: u8 = self.read_vram(title_addr);
        let tile_offset: u16 = if tile_base == 0x8000 {
            tile_number as u16
        } else if tile_number < 128 {
            tile_number as u16 + 128
        } else {
            tile_number as u16 - 128
        } * 16;
        tile_base + tile_offset
    }

    /// The address of the tile data for a point of the background.
    pub fn get_tile_location(&self, x: u8, y: u8) -> (r: u16)
        ensures
            r == self.tile_location(self.lcdc.bg_map(), x, y),
    {
        let bg_base: u16 = self.lcdc.bg_tile_map_display_select();
        self.tile_location_in(bg_base, x, y)
    }

    /// The colour number at a point of the tile map at `map`.
    fn color_id_in(&self, map: u16, x: u8, y: u8) -> (r: u8)
        requires
            map == 0x9800 || map == 0x9c00,
        ensures
            r == self.map_color_id(map, x, y),
            r < 4,
    {
        let tile_location: u16 = self.tile_location_in(map, x, y);
        self.get_color_id(tile_location, y % 8, x % 8)
    }

    /// The shade of a point of the background.
    pub fn draw_tile_at(&self, x: u8, y: u8) -> (r: TilePixelValue)
        ensures
            r == TilePixelValue::shade(self.bgp, self.map_color_id(self.lcdc.bg_map(), x, y)),
    {
        let tile_location: u16 = self.get_tile_location(x, y);
        let tile_y: u8 = y % 8;
        let tile_x: u8 = x % 8;
        self.get_pixel_color(tile_location, tile_y, tile_x)
    }

    /// Draws the current line into the frame buffer.
    pub fn render_line_into_buffer(&self, buffer: &mut [u32; SCREEN_PIXELS])
        requires
            self.ly < 144,
        ensures
            final(buffer)@ == self.rendered(old(buffer)@),
    {
        let y: u16 = self.ly as u16;
        let (sprites_to_draw, len) = self.populate_sprites_to_render(y);
        let mut x: u16 = 0;
        while x < 160
            invariant
                x <= 160,
                y == self.ly,
                y < 144,
                len <= 10,
                sprites_to_draw@.take(len as int) == self.visible_sprites(y as int, 40),
                forall|j: int| 0 <= j < len ==> self.shows(#[trigger] sprites_to_draw[j], y as int),
                forall|i: int|
                    0 <= i < SCREEN_PIXELS ==> buffer[i] == if y * 160 <= i < y * 160 + x {
                        self.pixel((i - y * 160) as u8).rgb()
                    } else {
                        old(buffer)[i]
                    },
            decreases 160 - x,
        {
            let index: usize = y as usize * 160 + x as usize;
            let column: u8 = x as u8;
            let mut color: u8 = 0;
            let mut tile_pixel_color: TilePixelValue = TilePixelValue::White;
            if self.lcdc.window_display_enable() && x + 7 >= self.wx as u16 && self.ly >= self.wy {
                color = self.color_id_in(
                    self.lcdc.window_tile_map_display_select(),
                    (x + 7 - self.wx as u16) as u8,
                    self.ly - self.wy,
                );
                tile_pixel_color = TilePixelValue::from_palette_and_u8(self.bgp, color);
            } else if self.lcdc.bg_and_window_display_enable() {
                color = self.color_id_in(
                    self.lcdc.bg_tile_map_display_select(),
                    ((x + self.scx as u16) % 256) as u8,
                    ((y + self.scy as u16) % 256) as u8,
                );
                tile_pixel_color = TilePixelValue::from_palette_and_u8(self.bgp, color);
            }
            if self.lcdc.obj_display_enable() {
                if let Some(shade) = self.draw_sprite_at(
                    &sprites_to_draw,
                    len,
                    column,
                    self.ly,
                    color == 0,
                ) {
                    tile_pixel_color = shade;
                }
            }
            buffer[index] = tile_pixel_color.to_rgb();
            x = x + 1;
        }
        assert(buffer@ =~= self.rendered(old(buffer)@)) by {
            reveal(GPU::rendered);
        }
    }

    /// Collects the sprites that `line` shows, in the order in which they
    /// are drawn.
    pub fn populate_sprites_to_render(&self, line: u16) -> (r: ([Sprite; 10], usize))
        ensures
            r.1 <= 10,
            r.0@.take(r.1 as int) == self.visible_sprites(line as int, 40),
            forall|j: int| 0 <= j < r.1 ==> self.shows(#[trigger] r.0[j], line as int),
    {
        let mut sprites: [Sprite; 10] = [(0i32, 0i32, 0u16);10];
        let mut index: usize = 0;
        let line: i32 = line as i32;
        let sprite_size: i32 = self.lcdc.obj_size() as i32;
        let mut i: u16 = 0;
        while i < 40
            invariant
                i <= 40,
                index <= 10,
                sprite_size == self.lcdc.sprite_height(),
                sprites@.take(index as int) == self.visible_sprites(line as int, i as nat),
                forall|j: int| 0 <= j < index ==> self.shows(#[trigger] sprites[j], line as int),
            decreases 40 - i,
        {
            let addr: u16 = 0xfe00 + (i * 4);
            let sprite_y: i32 = self.read_vram(addr) as i32 - 16;
            if index < 10 && line >= sprite_y && line < sprite_y + sprite_size {
                let sprite_x: i32 = self.read_vram(addr + 1) as i32 - 8;
                insert_sprite(&mut sprites, index, (sprite_x, sprite_y, i));
                index = index + 1;
            }
            i = i + 1;
        }
        (sprites, index)
    }

    /// The colour number of a sprite of the current line at pixel `x`.
    fn sprite_color(&self, sprite: Sprite, x: u8, y: u8) -> (r: u8)
        requires
            self.drawable(sprite, y as int),
        ensures
            r == self.sprite_color_id(sprite, x, y),
            r < 4,
    {
        let (sprite_x, sprite_y, i) = sprite;
        let sprite_size: u16 = self.lcdc.obj_size();
        let tile_x: i32 = x as i32 - sprite_x;
        if tile_x < 0 || tile_x > 7 {
            return 0;
        }
        let addr: u16 = 0xfe00 + i * 4;
        let number: u8 = self.read_vram(addr + 2);
        let tile_num: u16 = if sprite_size == 16 {
            (number - number % 2) as u16
        } else {
            number as u16
        };
        let flags: u8 = self.read_vram(addr + 3);
        let x_flip: bool = test_bit(flags, 5);
        let y_flip: bool = test_bit(flags, 6);
        let row: u16 = (y as i32 - sprite_y) as u16;
        let tile_y: u16 = if y_flip {
            (sprite_size - 1) - row
        } else {
            row
        };
        let column: u8 = if x_flip {
            (7 - tile_x) as u8
        } else {
            tile_x as u8
        };
        self.get_color_id(0x8000 + tile_num * 16, tile_y as u8, column)
    }

    /// The shade that the sprites of the current line give to pixel `x`, if
    /// any does.
    pub fn draw_sprite_at(
        &self,
        sprites: &[Sprite; 10],
        len: usize,
        x: u8,
        y: u8,
        bg_color_is_white: bool,
    ) -> (r: Option<TilePixelValue>)
        requires
            len <= 10,
            forall|j: int| 0 <= j < len ==> self.drawable(#[trigger] sprites[j], y as int),
        ensures
            r == self.sprite_shade(sprites@.take(len as int), x, y, bg_color_is_white),
    {
        let ghost shown = sprites@.take(len as int);
        let mut k: usize = 0;
        while k < len
            invariant
                k <= len <= 10,
                shown == sprites@.take(len as int),
                forall|j: int| 0 <= j < len ==> self.drawable(#[trigger] sprites[j], y as int),
                self.first_opaque(shown, 0, x, y) == self.first_opaque(shown, k as int, x, y),
            decreases len - k,
        {
            let sprite: Sprite = sprites[k];
            let color: u8 = self.sprite_color(sprite, x, y);
            if color != 0 {
                let flags: u8 = self.read_vram(0xfe00 + sprite.2 * 4 + 3);
                let use_pal1: bool = test_bit(flags, 4);
                let behind_non_white_bg: bool = test_bit(flags, 7);
                if !bg_color_is_white && behind_non_white_bg {
                    return None;
                }
                let palette: u8 = if use_pal1 {
                    self.pal1
                } else {
                    self.pal0
                };
                return Some(TilePixelValue::from_palette_and_u8(palette, color));
            }
            k = k + 1;
        }
        None
    }

    /// Shows the first 360 tiles of the tile data in the frame buffer, 20 to
    /// a row.
    pub fn debug_vram_into_buffer(&self, buffer: &mut [u32; SCREEN_PIXELS])
        ensures
            final(buffer)@ == self.tiles_shown(),
    {
        let mut i: usize = 0;
        while i < SCREEN_PIXELS
            invariant
                i <= SCREEN_PIXELS,
                forall|k: int| 0 <= k < i ==> buffer[k] == self.tiles_shown()[k],
            decreases SCREEN_PIXELS - i,
        {
            let row: usize = i / 160;
            let tile: usize = (row / 8) * 20 + (i % 160) / 8;
            buffer[i] = self.get_pixel_color(
                (0x8000 + tile * 16) as u16,
                (row % 8) as u8,
                (i % 8) as u8,
            ).to_rgb();
            i = i + 1;
        }
    }
}

} // verus!
