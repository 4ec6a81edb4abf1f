//! The pixel-processing unit: the scanline timing state machine, sprite-table
//! DMA and scanline rendering.
use vstd::prelude::*;

use crate::bus::{
    Bus, BusView, OAM_SIZE, lemma_oam_access, lemma_oam_frame, lemma_read_after_write,
    lemma_write_frame, wrap8,
};
use crate::canvas::Canvas;
use crate::color::{Color, shade_color};
use crate::instructions::signed_offset;

verus! {

pub const SCREEN_WIDTH: usize = 160;
pub const SCREEN_HEIGHT: usize = 144;
/// Number of sprite entries in OAM.
pub const SPRITE_COUNT: usize = 40;

pub const CONTROL_REGISTER: u16 = 0xFF40;
pub const STATUS_REGISTER: u16 = 0xFF41;
pub const SCROLL_Y: u16 = 0xFF42;
pub const SCROLL_X: u16 = 0xFF43;
pub const Y_COORDINATE: u16 = 0xFF44;
pub const DMA_TRANSFER_REGISTER: u16 = 0xFF46;
pub const BG_PALETTE: u16 = 0xFF47;
/// The background tile map.
pub const BG_MAP: u16 = 0x9800;
pub const INTERRUPT_REQUEST: u16 = 0xFF0F;

pub const OAM_ACCESS_SCANLINE_CLOCKS: u16 = 80;
pub const VRAM_ACCESS_SCANLINE_CLOCKS: u16 = 172;
pub const HORIZONTAL_BLANK_CLOCKS: u16 = 204;
/// One line of vertical blank.
pub const VERTICAL_BLANK_LINE_CLOCKS: u16 = 456;
/// The line on which vertical blank starts.
pub const FIRST_VBLANK_LINE: u8 = 143;
pub const LINE_VBLANK_END: u8 = 153;
/// Clock cycles from one entry into vertical blank to the next.
pub const FRAME_CLOCKS: u32 = 70224;

#[derive(Clone, Copy, PartialEq, Eq, Structural, Debug)]
pub enum GPUMode {
    HBlank,
    VBlank,
    SearchingOAM,
    SearchingVRAM,
}

impl GPUMode {
    /// The value reported in the status register.
    pub open spec fn code(self) -> u8 {
        match self {
            GPUMode::HBlank => 0,
            GPUMode::VBlank => 1,
            GPUMode::SearchingOAM => 3,
            GPUMode::SearchingVRAM => 4,
        }
    }

    pub fn as_u8(&self) -> (r: u8)
        ensures
            r == self.code(),
    {
        match self {
            GPUMode::HBlank => 0,
            GPUMode::VBlank => 1,
            GPUMode::SearchingOAM => 3,
            GPUMode::SearchingVRAM => 4,
        }
    }
}

#[derive(Clone, Copy, PartialEq, Eq, Structural)]
pub enum WindowTileMapArea {
    Area9800,
    Area9C00,
}

#[derive(Clone, Copy, PartialEq, Eq, Structural)]
pub enum BGWindowTileDataArea {
    /// Tile indices are signed offsets from 0x9000.
    Area9000,
    /// Tile indices are unsigned offsets from 0x8000.
    Area8000,
}

impl BGWindowTileDataArea {
    pub fn address(&self) -> (r: u16)
        ensures
            *self == BGWindowTileDataArea::Area8000 ==> r == 0x8000,
            *self == BGWindowTileDataArea::Area9000 ==> r == 0x9000,
    {
        match self {
            BGWindowTileDataArea::Area8000 => 0x8000,
            BGWindowTileDataArea::Area9000 => 0x9000,
        }
    }
}

#[derive(Clone, Copy, PartialEq, Eq, Structural)]
pub enum BGTileMapArea {
    Area9800,
    Area9C00,
}

#[derive(Clone, Copy, PartialEq, Eq, Structural)]
pub enum OBJSize {
    Size8x8,
    Size8x16,
}

/// The decoded display control register.
#[derive(Clone, Copy, PartialEq, Eq, Structural)]
pub struct ControlRegister {
    pub display_enabled: bool,
    pub window_tile_map_area: WindowTileMapArea,
    pub window_enabled: bool,
    pub bg_window_tile_data_area: BGWindowTileDataArea,
    pub bg_tile_map_area: BGTileMapArea,
    pub obj_size: OBJSize,
    pub obj_enabled: bool,
    pub bg_window_enable_priority: bool,
}

impl ControlRegister {
    pub open spec fn of_byte(raw: u8) -> ControlRegister {
        ControlRegister {
            display_enabled: raw & 0x80 != 0,
            window_tile_map_area: if raw & 0x40 != 0 {
                WindowTileMapArea::Area9C00
            } else {
                WindowTileMapArea::Area9800
            },
            window_enabled: raw & 0x20 != 0,
            bg_window_tile_data_area: if raw & 0x10 != 0 {
                BGWindowTileDataArea::Area8000
            } else {
                BGWindowTileDataArea::Area9000
            },
            bg_tile_map_area: if raw & 0x08 != 0 {
                BGTileMapArea::Area9C00
            } else {
                BGTileMapArea::Area9800
            },
            obj_size: if raw & 0x04 != 0 {
                OBJSize::Size8x16
            } else {
                OBJSize::Size8x8
            },
            obj_enabled: raw & 0x02 != 0,
            bg_window_enable_priority: raw & 0x01 != 0,
        }
    }

    pub fn fetch(bus: &Bus) -> (r: Self)
        requires
            bus.wf(),
        ensures
            r == ControlRegister::of_byte(bus@.read(CONTROL_REGISTER)),
    {
        let raw = bus.fetch_byte(CONTROL_REGISTER);
        ControlRegister {
            display_enabled: raw & 0x80 != 0,
            window_tile_map_area: if raw & 0x40 != 0 {
                WindowTileMapArea::Area9C00
            } else {
                WindowTileMapArea::Area9800
            },
            window_enabled: raw & 0x20 != 0,
            bg_window_tile_data_area: if raw & 0x10 != 0 {
                BGWindowTileDataArea::Area8000
            } else {
                BGWindowTileDataArea::Area9000
            },
            bg_tile_map_area: if raw & 0x08 != 0 {
                BGTileMapArea::Area9C00
            } else {
                BGTileMapArea::Area9800
            },
            obj_size: if raw & 0x04 != 0 {
                OBJSize::Size8x16
            } else {
                OBJSize::Size8x8
            },
            obj_enabled: raw & 0x02 != 0,
            bg_window_enable_priority: raw & 0x01 != 0,
        }
    }
}

/// The bus after a DMA transfer from page `page`: OAM holds the page's first 160
/// bytes and the trigger register reads 0.
pub open spec fn dma_spec(mem: BusView, page: u8) -> BusView {
    (BusView {
        oam: Seq::new(OAM_SIZE as nat, |i: int| mem.read((page as int * 256 + i) as u16)),
        ..mem
    }).write(DMA_TRANSFER_REGISTER, 0)
}

/// The bus after a pending DMA transfer, if any, is serviced.
pub open spec fn after_dma(mem: BusView) -> BusView {
    let page = mem.read(DMA_TRANSFER_REGISTER);
    if page != 0 {
        dma_spec(mem, page)
    } else {
        mem
    }
}

/// The 2-bit color index of column `col` (0 = leftmost) in a tile row given by
/// its two bit planes.
pub open spec fn tile_color(lo: u8, hi: u8, col: u8) -> u8 {
    let shift = (7 - col) as u8;
    (((lo >> shift) & 1u8) + 2 * ((hi >> shift) & 1u8)) as u8
}

/// The shade that palette register `palette` gives the color index `idx`.
pub open spec fn palette_shade(palette: u8, idx: u8) -> u8 {
    (palette >> ((2 * idx) as u8)) & 3u8
}

/// The background color index at column `x` of screen line `line`, after scrolling.
pub open spec fn bg_color_index(mem: BusView, line: u8, x: u8) -> u8 {
    let lcdc = mem.read(CONTROL_REGISTER);
    let yy = wrap8(line + mem.read(SCROLL_Y));
    let xx = wrap8(x + mem.read(SCROLL_X));
    let tile = mem.read((BG_MAP + (yy / 8) as int * 32 + (xx / 8) as int) as u16);
    let tile_base: int = if lcdc & 0x10 != 0 {
        0x8000 + 16 * tile as int
    } else {
        0x9000 + 16 * signed_offset(tile)
    };
    let row = tile_base + 2 * (yy % 8) as int;
    tile_color(mem.read(row as u16), mem.read((row + 1) as u16), xx % 8)
}

/// Sprite height in lines: 16 when the control register selects tall sprites.
pub open spec fn sprite_height(mem: BusView) -> int {
    if mem.read(CONTROL_REGISTER) & 0x04 != 0 {
        16
    } else {
        8
    }
}

/// The screen row of the top of sprite `i`.
pub open spec fn sprite_top(mem: BusView, i: int) -> int {
    mem.read((0xFE00 + 4 * i) as u16) as int - 16
}

/// The screen column of the left of sprite `i`.
pub open spec fn sprite_left(mem: BusView, i: int) -> int {
    mem.read((0xFE00 + 4 * i + 1) as u16) as int - 8
}

/// The attribute byte of sprite `i`.
pub open spec fn sprite_flags(mem: BusView, i: int) -> u8 {
    mem.read((0xFE00 + 4 * i + 3) as u16)
}

/// Whether sprite `i` covers screen line `line`.
pub open spec fn sprite_on_line(mem: BusView, line: u8, i: int) -> bool {
    sprite_top(mem, i) <= line < sprite_top(mem, i) + sprite_height(mem)
}

/// The color index of sprite `i` at column `x` of line `line`; 0 (transparent)
/// where the sprite does not cover the pixel. Attribute bit 6 flips vertically,
/// bit 5 horizontally.
pub open spec fn sprite_color_index(mem: BusView, line: u8, x: u8, i: int) -> u8 {
    let top = sprite_top(mem, i);
    let left = sprite_left(mem, i);
    let flags = sprite_flags(mem, i);
    let h = sprite_height(mem);
    if sprite_on_line(mem, line, i) && left <= x < left + 8 {
        let row0 = line - top;
        let row = if flags & 0x40 != 0 { h - 1 - row0 } else { row0 };
        let col0 = x - left;
        let col = if flags & 0x20 != 0 { 7 - col0 } else { col0 };
        let tile = mem.read((0xFE00 + 4 * i + 2) as u16);
        let t = if h == 16 { tile & 0xFE } else { tile };
        let addr = 0x8000 + 16 * t as int + 2 * row;
        tile_color(mem.read(addr as u16), mem.read((addr + 1) as u16), col as u8)
    } else {
        0
    }
}

/// The shade of the first sprite, from index `i` on, that shows an opaque pixel at
/// column `x` of line `line`: a lower index has priority, color index 0 is
/// transparent, and the color goes through the background palette.
pub open spec fn sprite_shade(mem: BusView, line: u8, x: u8, i: int) -> Option<u8>
    decreases SPRITE_COUNT - i,
{
    if i < 0 || i >= SPRITE_COUNT {
        None
    } else {
        let c = sprite_color_index(mem, line, x, i);
        if c != 0 {
            Some(palette_shade(mem.read(BG_PALETTE), c))
        } else {
            sprite_shade(mem, line, x, i + 1)
        }
    }
}

/// The shade drawn at column `x` of line `line`: an opaque sprite pixel when sprites
/// are enabled, else the background when it is enabled; `None` leaves the pixel as
/// it was.
pub open spec fn pixel_shade(mem: BusView, line: u8, x: u8) -> Option<u8> {
    let lcdc = mem.read(CONTROL_REGISTER);
    let sprite = if lcdc & 0x02 != 0 {
        sprite_shade(mem, line, x, 0)
    } else {
        None
    };
    match sprite {
        Some(s) => Some(s),
        None => if lcdc & 0x01 != 0 {
            Some(palette_shade(mem.read(BG_PALETTE), bg_color_index(mem, line, x)))
        } else {
            None
        },
    }
}

/// The value of the pixel at column `x` of line `line` once drawn, where it held `old`.
pub open spec fn drawn_pixel(mem: BusView, line: u8, x: u8, old: u32) -> u32 {
    match pixel_shade(mem, line, x) {
        Some(s) => shade_color(s).packed(),
        None => old,
    }
}

/// The screen after line `line` is drawn from `mem`.
pub open spec fn render_line(mem: BusView, line: u8, screen: Seq<u32>) -> Seq<u32> {
    Seq::new(
        screen.len(),
        |k: int|
            if line * 160 <= k < line * 160 + 160 {
                drawn_pixel(mem, line, (k - line * 160) as u8, screen[k])
            } else {
                screen[k]
            },
    )
}

/// The outcome of one PPU tick.
pub struct PpuStep {
    pub gpu: GPU,
    pub mem: BusView,
    pub screen: Seq<u32>,
    /// A complete frame is ready to be presented.
    pub present: bool,
}

pub struct GPU {
    pub clock_cycles: u16,
    pub current_line: u8,
    pub mode: GPUMode,
    pub stopped: bool,
}

impl GPU {
    /// The timing state is reachable: the clock is below its mode's length, and
    /// visible lines are 0..=142, vertical-blank lines 143..=153.
    pub open spec fn timing_valid(self) -> bool {
        match self.mode {
            GPUMode::SearchingOAM => self.clock_cycles < 80 && self.current_line < 143,
            GPUMode::SearchingVRAM => self.clock_cycles < 172 && self.current_line < 143,
            GPUMode::HBlank => self.clock_cycles < 204 && self.current_line < 143,
            GPUMode::VBlank => self.clock_cycles < 456 && 143 <= self.current_line <= 153,
        }
    }

    /// Clock cycles since the start of line 0.
    pub open spec fn frame_position(self) -> int {
        let base = self.current_line as int * 456;
        match self.mode {
            GPUMode::SearchingOAM => base + self.clock_cycles,
            GPUMode::SearchingVRAM => base + 80 + self.clock_cycles,
            GPUMode::HBlank => base + 252 + self.clock_cycles,
            GPUMode::VBlank => base + self.clock_cycles,
        }
    }

    /// This tick ends horizontal blank on the last visible line: vertical blank starts.
    pub open spec fn enters_vblank(self) -> bool {
        self.mode == GPUMode::HBlank && self.clock_cycles + 1 == 204 && self.current_line + 1 == 143
    }

    /// This tick ends the drawing mode of the current line.
    pub open spec fn finishes_drawing(self) -> bool {
        self.mode == GPUMode::SearchingVRAM && self.clock_cycles + 1 == 172
    }

    /// The timing state one clock cycle later.
    pub open spec fn advance(self) -> GPU {
        let c = (self.clock_cycles + 1) as u16;
        let line = (self.current_line + 1) as u8;
        match self.mode {
            GPUMode::HBlank => if c == 204 {
                if line == 143 {
                    GPU { clock_cycles: 0, current_line: line, mode: GPUMode::VBlank, ..self }
                } else {
                    GPU { clock_cycles: 0, current_line: line, mode: GPUMode::SearchingOAM, ..self }
                }
            } else {
                GPU { clock_cycles: c, ..self }
            },
            GPUMode::VBlank => if c == 456 {
                if line > 153 {
                    GPU { clock_cycles: 0, current_line: 0, mode: GPUMode::SearchingOAM, ..self }
                } else {
                    GPU { clock_cycles: 0, current_line: line, ..self }
                }
            } else {
                GPU { clock_cycles: c, ..self }
            },
            GPUMode::SearchingOAM => if c == 80 {
                GPU { clock_cycles: 0, mode: GPUMode::SearchingVRAM, ..self }
            } else {
                GPU { clock_cycles: c, ..self }
            },
            GPUMode::SearchingVRAM => if c == 172 {
                GPU { clock_cycles: 0, mode: GPUMode::HBlank, ..self }
            } else {
                GPU { clock_cycles: c, ..self }
            },
        }
    }

    /// The parked state of a disabled display.
    pub open spec fn parked() -> GPU {
        GPU { clock_cycles: 0, current_line: 0, mode: GPUMode::SearchingOAM, stopped: true }
    }

    /// One tick: service a pending DMA transfer; then, with the display disabled, park
    /// once (clearing the screen to white); with it enabled, advance the timing state,
    /// draw the line whose drawing mode ends, request the vertical-blank interrupt on
    /// entering vertical blank, and report line and mode in their registers.
    pub open spec fn tick_spec(self, mem: BusView, screen: Seq<u32>) -> PpuStep {
        let m1 = after_dma(mem);
        if m1.read(CONTROL_REGISTER) & 0x80 == 0 {
            if self.stopped {
                PpuStep { gpu: self, mem: m1, screen: screen, present: false }
            } else {
                PpuStep {
                    gpu: GPU::parked(),
                    mem: m1,
                    screen: Seq::new(screen.len(), |_k: int| shade_color(0).packed()),
                    present: true,
                }
            }
        } else {
            let g0 = GPU { stopped: false, ..self };
            let g1 = g0.advance();
            let screen1 = if g0.finishes_drawing() {
                render_line(m1, g0.current_line, screen)
            } else {
                screen
            };
            let m2 = if g0.enters_vblank() {
                m1.write(INTERRUPT_REQUEST, m1.read(INTERRUPT_REQUEST) | 1)
            } else {
                m1
            };
            let m3 = m2.write(Y_COORDINATE, g1.current_line).write(STATUS_REGISTER, g1.mode.code());
            PpuStep { gpu: g1, mem: m3, screen: screen1, present: g0.enters_vblank() }
        }
    }

    pub fn new() -> (r: GPU)
        ensures
            r == (GPU { clock_cycles: 0, current_line: 0, mode: GPUMode::SearchingOAM, stopped: false }),
            r.timing_valid(),
    {
        GPU { clock_cycles: 0, current_line: 0, mode: GPUMode::SearchingOAM, stopped: false }
    }

    /// One PPU clock tick; returns whether a complete frame is ready to present.
    pub fn tick(&mut self, bus: &mut Bus, canvas: &mut Canvas) -> (frame_ready: bool)
        requires
            old(bus).wf(),
            old(self).timing_valid(),
            old(canvas).wf(),
            old(canvas).width() == SCREEN_WIDTH,
            old(canvas).height() == SCREEN_HEIGHT,
        ensures
            final(bus).wf(),
            final(self).timing_valid(),
            final(canvas).wf(),
            final(canvas).width() == SCREEN_WIDTH,
            final(canvas).height() == SCREEN_HEIGHT,
            (PpuStep { gpu: *final(self), mem: final(bus)@, screen: final(canvas)@, present: frame_ready })
                == old(self).tick_spec(old(bus)@, old(canvas)@),
    {
        let page = bus.fetch_byte(DMA_TRANSFER_REGISTER);
        if page != 0 {
            dma_transfer(bus, page);
        }
        let control = ControlRegister::fetch(bus);
        if !control.display_enabled {
            if self.stopped {
                return false;
            }
            canvas.set_draw_color(Color::white());
            canvas.fill_with_color();
            self.current_line = 0;
            self.clock_cycles = 0;
            self.mode = GPUMode::SearchingOAM;
            self.stopped = true;
            return true;
        }
        self.stopped = false;
        let drawing_done = self.mode == GPUMode::SearchingVRAM && self.clock_cycles + 1 == 172;
        let vblank = self.mode == GPUMode::HBlank && self.clock_cycles + 1 == 204
            && self.current_line + 1 == 143;
        if drawing_done {
            write_scanline(bus, canvas, self.current_line);
        }
        self.advance_timing();
        if vblank {
            let requested = bus.fetch_byte(INTERRUPT_REQUEST);
            bus.set_byte(INTERRUPT_REQUEST, requested | 1);
        }
        bus.set_byte(Y_COORDINATE, self.current_line);
        let code = self.mode.as_u8();
        bus.set_byte(STATUS_REGISTER, code);
        vblank
    }

    fn advance_timing(&mut self)
        requires
            old(self).timing_valid(),
        ensures
            *final(self) == old(self).advance(),
            final(self).timing_valid(),
    {
        let c = self.clock_cycles + 1;
        match self.mode {
            GPUMode::HBlank => {
                if c == HORIZONTAL_BLANK_CLOCKS {
                    self.clock_cycles = 0;
                    self.current_line = self.current_line + 1;
                    if self.current_line == FIRST_VBLANK_LINE {
                        self.mode = GPUMode::VBlank;
                    } else {
                        self.mode = GPUMode::SearchingOAM;
                    }
                } else {
                    self.clock_cycles = c;
                }
            },
            GPUMode::VBlank => {
                if c == VERTICAL_BLANK_LINE_CLOCKS {
                    self.clock_cycles = 0;
                    self.current_line = self.current_line + 1;
                    if self.current_line > LINE_VBLANK_END {
                        self.mode = GPUMode::SearchingOAM;
                        self.current_line = 0;
                    }
                } else {
                    self.clock_cycles = c;
                }
            },
            GPUMode::SearchingOAM => {
                if c == OAM_ACCESS_SCANLINE_CLOCKS {
                    self.clock_cycles = 0;
                    self.mode = GPUMode::SearchingVRAM;
                } else {
                    self.clock_cycles = c;
                }
            },
            GPUMode::SearchingVRAM => {
                if c == VRAM_ACCESS_SCANLINE_CLOCKS {
                    self.clock_cycles = 0;
                    self.mode = GPUMode::HBlank;
                } else {
                    self.clock_cycles = c;
                }
            },
        }
    }
}

/// The timing state after `n` ticks with the display enabled.
pub open spec fn run(g: GPU, n: nat) -> GPU
    decreases n,
{
    if n == 0 {
        g
    } else {
        run(g, (n - 1) as nat).advance()
    }
}

/// One tick moves one clock cycle forward in the frame, wrapping at the frame's end;
/// the tick that enters vertical blank is the one from the frame's last visible cycle.
proof fn lemma_advance_position(g: GPU)
    requires
        g.timing_valid(),
    ensures
        0 <= g.frame_position() < FRAME_CLOCKS,
        g.advance().timing_valid(),
        g.advance().frame_position() == (g.frame_position() + 1) % (FRAME_CLOCKS as int),
        g.enters_vblank() <==> g.frame_position() == 143 * 456 - 1,
{
}

proof fn lemma_run_position(g: GPU, n: nat)
    requires
        g.timing_valid(),
    ensures
        run(g, n).timing_valid(),
        run(g, n).frame_position() == (g.frame_position() + n) % (FRAME_CLOCKS as int),
    decreases n,
{
    lemma_advance_position(g);
    if n > 0 {
        lemma_run_position(g, (n - 1) as nat);
        lemma_advance_position(run(g, (n - 1) as nat));
    }
}

/// While the display is enabled and no DMA transfer is pending, a tick advances the
/// timing state by one cycle, and it presents a frame exactly when it enters
/// vertical blank.
pub proof fn lemma_tick_follows_timing(g: GPU, mem: BusView, screen: Seq<u32>)
    requires
        mem.read(DMA_TRANSFER_REGISTER) == 0,
        mem.read(CONTROL_REGISTER) & 0x80 != 0,
        !g.stopped,
    ensures
        g.tick_spec(mem, screen).gpu == g.advance(),
        g.tick_spec(mem, screen).present == g.enters_vblank(),
{
}

/// With the display enabled, entries into vertical blank come exactly 70224 ticks
/// apart: if the tick from `g` enters vertical blank, the ticks from the next 70223
/// states do not, and the tick from the state 70224 ticks later does.
pub proof fn lemma_frame_period(g: GPU, n: nat)
    requires
        g.timing_valid(),
        g.enters_vblank(),
    ensures
        0 < n < FRAME_CLOCKS ==> !run(g, n).enters_vblank(),
        run(g, FRAME_CLOCKS as nat).enters_vblank(),
{
    lemma_advance_position(g);
    lemma_run_position(g, n);
    lemma_advance_position(run(g, n));
    lemma_run_position(g, FRAME_CLOCKS as nat);
    lemma_advance_position(run(g, FRAME_CLOCKS as nat));
}

/// A nonzero page in the DMA trigger register is copied into OAM by the next tick,
/// whatever the display state, and the trigger then reads 0.
pub proof fn lemma_dma_copies_page(g: GPU, mem: BusView, screen: Seq<u32>)
    requires
        mem.wf(),
        mem.read(DMA_TRANSFER_REGISTER) != 0,
    ensures
        forall|i: int|
            0 <= i < OAM_SIZE ==> #[trigger] g.tick_spec(mem, screen).mem.read((0xFE00 + i) as u16)
                == mem.read((mem.read(DMA_TRANSFER_REGISTER) as int * 256 + i) as u16),
        g.tick_spec(mem, screen).mem.read(DMA_TRANSFER_REGISTER) == 0,
{
    let page = mem.read(DMA_TRANSFER_REGISTER);
    let copied = BusView {
        oam: Seq::new(OAM_SIZE as nat, |i: int| mem.read((page as int * 256 + i) as u16)),
        ..mem
    };
    let m1 = copied.write(DMA_TRANSFER_REGISTER, 0);
    lemma_read_after_write(copied, DMA_TRANSFER_REGISTER, 0);
    let after = g.tick_spec(mem, screen).mem;
    // every later write of the tick hits a register outside OAM and apart from the trigger
    if m1.read(CONTROL_REGISTER) & 0x80 != 0 {
        let g0 = GPU { stopped: false, ..g };
        let g1 = g0.advance();
        let m2 = if g0.enters_vblank() {
            m1.write(INTERRUPT_REQUEST, m1.read(INTERRUPT_REQUEST) | 1)
        } else {
            m1
        };
        let m3 = m2.write(Y_COORDINATE, g1.current_line);
        lemma_read_after_write(m1, INTERRUPT_REQUEST, m1.read(INTERRUPT_REQUEST) | 1);
        lemma_read_after_write(m2, Y_COORDINATE, g1.current_line);
        lemma_write_frame(m1, INTERRUPT_REQUEST, m1.read(INTERRUPT_REQUEST) | 1, DMA_TRANSFER_REGISTER);
        lemma_write_frame(m2, Y_COORDINATE, g1.current_line, DMA_TRANSFER_REGISTER);
        lemma_write_frame(m3, STATUS_REGISTER, g1.mode.code(), DMA_TRANSFER_REGISTER);
        assert forall|i: int| 0 <= i < OAM_SIZE implies #[trigger] after.read((0xFE00 + i) as u16) == m1.read(
            (0xFE00 + i) as u16,
        ) by {
            let a = (0xFE00 + i) as u16;
            lemma_write_frame(m1, INTERRUPT_REQUEST, m1.read(INTERRUPT_REQUEST) | 1, a);
            lemma_write_frame(m2, Y_COORDINATE, g1.current_line, a);
            lemma_write_frame(m3, STATUS_REGISTER, g1.mode.code(), a);
        }
    }
    assert forall|i: int| 0 <= i < OAM_SIZE implies #[trigger] m1.read((0xFE00 + i) as u16) == mem.read(
        (page as int * 256 + i) as u16,
    ) by {
        lemma_write_frame(copied, DMA_TRANSFER_REGISTER, 0, (0xFE00 + i) as u16);
        lemma_oam_access(copied, i, 0);
    }
}

/// Copies the first 160 bytes of page `page` into OAM, then clears the trigger.
fn dma_transfer(bus: &mut Bus, page: u8)
    requires
        old(bus).wf(),
    ensures
        final(bus).wf(),
        final(bus)@ == dma_spec(old(bus)@, page),
{
    let ghost m0 = bus@;
    let base: u16 = (page as u16) * 256;
    let mut i: u16 = 0;
    proof {
        bus.lemma_view_wf();
        assert(m0.oam =~= Seq::new(
            OAM_SIZE as nat,
            |j: int| if j < i { m0.read((base + j) as u16) } else { m0.oam[j] },
        ));
    }
    while i < 160
        invariant
            bus.wf(),
            m0.wf(),
            base == page as int * 256,
            i <= 160,
            bus@ == (BusView {
                oam: Seq::new(
                    OAM_SIZE as nat,
                    |j: int| if j < i { m0.read((base + j) as u16) } else { m0.oam[j] },
                ),
                ..m0
            }),
        decreases 160 - i,
    {
        let src: u16 = base + i;
        proof {
            bus.lemma_view_wf();
            if 0xFE00 <= src && src <= 0xFE9F {
                lemma_oam_access(bus@, i as int, 0);
                lemma_oam_access(m0, i as int, 0);
            } else {
                lemma_oam_frame(m0, bus@.oam, src);
            }
        }
        let content = bus.fetch_byte(src);
        proof {
            lemma_oam_access(bus@, i as int, content);
        }
        bus.set_byte(0xFE00 + i, content);
        i = i + 1;
        proof {
            assert(bus@.oam =~= Seq::new(
                OAM_SIZE as nat,
                |j: int| if j < i { m0.read((base + j) as u16) } else { m0.oam[j] },
            ));
        }
    }
    proof {
        assert(bus@.oam =~= Seq::new(OAM_SIZE as nat, |j: int| m0.read((page as int * 256 + j) as u16)));
    }
    bus.set_byte(DMA_TRANSFER_REGISTER, 0);
}

/// Draws screen line `line` from the bus contents.
fn write_scanline(bus: &Bus, canvas: &mut Canvas, line: u8)
    requires
        bus.wf(),
        line < 143,
        old(canvas).wf(),
        old(canvas).width() == SCREEN_WIDTH,
        old(canvas).height() == SCREEN_HEIGHT,
    ensures
        final(canvas).wf(),
        final(canvas).width() == SCREEN_WIDTH,
        final(canvas).height() == SCREEN_HEIGHT,
        final(canvas)@ == render_line(bus@, line, old(canvas)@),
{
    let on_line = sprites_on_line(bus, line);
    let mut x: u8 = 0;
    proof {
        old(canvas).lemma_len();
        assert(canvas@ =~= Seq::new(
            old(canvas)@.len(),
            |k: int|
                if line * 160 <= k < line * 160 + x {
                    drawn_pixel(bus@, line, (k - line * 160) as u8, old(canvas)@[k])
                } else {
                    old(canvas)@[k]
                },
        ));
    }
    while x < 160
        invariant
            bus.wf(),
            line < 143,
            x <= 160,
            canvas.wf(),
            canvas.width() == SCREEN_WIDTH,
            canvas.height() == SCREEN_HEIGHT,
            on_line@.len() == SPRITE_COUNT,
            forall|j: int| 0 <= j < SPRITE_COUNT ==> on_line@[j] == sprite_on_line(bus@, line, j),
            canvas@.len() == old(canvas)@.len(),
            canvas@ == Seq::new(
                old(canvas)@.len(),
                |k: int|
                    if line * 160 <= k < line * 160 + x {
                        drawn_pixel(bus@, line, (k - line * 160) as u8, old(canvas)@[k])
                    } else {
                        old(canvas)@[k]
                    },
            ),
        decreases 160 - x,
    {
        if let Some(shade) = pixel_shade_of(bus, line, x, &on_line) {
            canvas.set_draw_color(Color::of_shade(shade));
            proof {
                canvas.lemma_len();
            }
            let ghost before = canvas@;
            let _ = canvas.set_pixel(x as usize, line as usize);
            assert(canvas@ == before.update(line * 160 + x, shade_color(shade).packed()));
        }
        x = x + 1;
        proof {
            assert(canvas@ =~= Seq::new(
                old(canvas)@.len(),
                |k: int|
                    if line * 160 <= k < line * 160 + x {
                        drawn_pixel(bus@, line, (k - line * 160) as u8, old(canvas)@[k])
                    } else {
                        old(canvas)@[k]
                    },
            ));
        }
    }
    proof {
        assert(canvas@ =~= render_line(bus@, line, old(canvas)@));
    }
}

/// Which of the sprites cover line `line`.
fn sprites_on_line(bus: &Bus, line: u8) -> (r: Vec<bool>)
    requires
        bus.wf(),
    ensures
        r@.len() == SPRITE_COUNT,
        forall|j: int| 0 <= j < SPRITE_COUNT ==> r@[j] == sprite_on_line(bus@, line, j),
{
    let tall = bus.fetch_byte(CONTROL_REGISTER) & 0x04 != 0;
    let h: i32 = if tall { 16 } else { 8 };
    let mut r: Vec<bool> = Vec::new();
    let mut i: u16 = 0;
    while i < 40
        invariant
            bus.wf(),
            i <= 40,
            h == sprite_height(bus@),
            r@.len() == i,
            forall|j: int| 0 <= j < i ==> r@[j] == sprite_on_line(bus@, line, j),
        decreases 40 - i,
    {
        let top = bus.fetch_byte(0xFE00 + 4 * i) as i32 - 16;
        r.push(top <= line as i32 && (line as i32) < top + h);
        i = i + 1;
    }
    r
}

fn tile_color_of(lo: u8, hi: u8, col: u8) -> (r: u8)
    requires
        col < 8,
    ensures
        r == tile_color(lo, hi, col),
        r < 4,
{
    let shift = 7 - col;
    let a = (lo >> shift) & 1u8;
    let b = (hi >> shift) & 1u8;
    proof {
        assert(a <= 1 && b <= 1) by (bit_vector)
            requires
                a == (lo >> shift) & 1u8,
                b == (hi >> shift) & 1u8,
        ;
    }
    a + 2 * b
}

fn palette_shade_of(palette: u8, idx: u8) -> (r: u8)
    requires
        idx < 4,
    ensures
        r == palette_shade(palette, idx),
{
    (palette >> (2 * idx)) & 3u8
}

/// The background color index at column `x` of line `line`.
#[verifier::rlimit(40)]
fn bg_color_index_of(bus: &Bus, line: u8, x: u8) -> (r: u8)
    requires
        bus.wf(),
    ensures
        r == bg_color_index(bus@, line, x),
        r < 4,
{
    let lcdc = bus.fetch_byte(CONTROL_REGISTER);
    let yy = line.wrapping_add(bus.fetch_byte(SCROLL_Y));
    let xx = x.wrapping_add(bus.fetch_byte(SCROLL_X));
    let tile = bus.fetch_byte(BG_MAP + (yy / 8) as u16 * 32 + (xx / 8) as u16);
    let tile_base: u16 = if lcdc & 0x10 != 0 {
        0x8000 + 16 * tile as u16
    } else if tile < 128 {
        0x9000 + 16 * tile as u16
    } else {
        0x9000 - 16 * (256 - tile as u16)
    };
    let row = tile_base + 2 * (yy % 8) as u16;
    let lo = bus.fetch_byte(row);
    let hi = bus.fetch_byte(row + 1);
    tile_color_of(lo, hi, xx % 8)
}

/// The color index of sprite `i` at column `x` of line `line`, for a sprite that
/// covers the line.
fn sprite_color_index_of(bus: &Bus, line: u8, x: u8, i: u16) -> (r: u8)
    requires
        bus.wf(),
        i < 40,
        sprite_on_line(bus@, line, i as int),
    ensures
        r == sprite_color_index(bus@, line, x, i as int),
        r < 4,
{
    let base: u16 = 0xFE00 + 4 * i;
    let top = bus.fetch_byte(base) as i32 - 16;
    let left = bus.fetch_byte(base + 1) as i32 - 8;
    let tile = bus.fetch_byte(base + 2);
    let flags = bus.fetch_byte(base + 3);
    let h: i32 = if bus.fetch_byte(CONTROL_REGISTER) & 0x04 != 0 { 16 } else { 8 };
    if !(left <= x as i32 && (x as i32) < left + 8) {
        return 0;
    }
    let row0 = line as i32 - top;
    let row = if flags & 0x40 != 0 { h - 1 - row0 } else { row0 };
    let col0 = x as i32 - left;
    let col = if flags & 0x20 != 0 { 7 - col0 } else { col0 };
    let t = if h == 16 { tile & 0xFE } else { tile };
    let addr: u16 = 0x8000 + 16 * t as u16 + 2 * row as u16;
    let lo = bus.fetch_byte(addr);
    let hi = bus.fetch_byte(addr + 1);
    tile_color_of(lo, hi, col as u8)
}

/// The shade of the pixel at column `x` of line `line`; `on_line` tells which
/// sprites cover the line.
fn pixel_shade_of(bus: &Bus, line: u8, x: u8, on_line: &Vec<bool>) -> (r: Option<u8>)
    requires
        bus.wf(),
        on_line@.len() == SPRITE_COUNT,
        forall|j: int| 0 <= j < SPRITE_COUNT ==> on_line@[j] == sprite_on_line(bus@, line, j),
    ensures
        r == pixel_shade(bus@, line, x),
{
    let lcdc = bus.fetch_byte(CONTROL_REGISTER);
    if lcdc & 0x02 != 0 {
        let mut i: u16 = 0;
        while i < 40
            invariant
                bus.wf(),
                i <= 40,
                on_line@.len() == SPRITE_COUNT,
                forall|j: int| 0 <= j < SPRITE_COUNT ==> on_line@[j] == sprite_on_line(bus@, line, j),
                sprite_shade(bus@, line, x, 0) == sprite_shade(bus@, line, x, i as int),
                lcdc == bus@.read(CONTROL_REGISTER),
                lcdc & 0x02 != 0,
            decreases 40 - i,
        {
            if on_line[i as usize] {
                let c = sprite_color_index_of(bus, line, x, i);
                if c != 0 {
                    let palette = bus.fetch_byte(BG_PALETTE);
                    return Some(palette_shade_of(palette, c));
                }
            }
            i = i + 1;
        }
    }
    if lcdc & 0x01 != 0 {
        let idx = bg_color_index_of(bus, line, x);
        let palette = bus.fetch_byte(BG_PALETTE);
        Some(palette_shade_of(palette, idx))
    } else {
        None
    }
}

} // verus!
