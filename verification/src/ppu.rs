use vstd::prelude::*;

use std::collections::VecDeque;

use crate::interrupts::Interrupt;
use crate::pixel::{Pixel, pixel_of, pixel_index, palette_entry, shade_color};

verus! {

/// Length of video RAM.
pub const VRAM_LEN: usize = 0x2000;
/// Number of entries in object attribute memory.
pub const OAM_LEN: usize = 40;
/// Length of object attribute memory in bytes (four per entry).
pub const OAM_BYTES: usize = 160;
/// Width of the screen in pixels.
pub const SCREEN_WIDTH: usize = 160;
/// Height of the screen in pixels.
pub const SCREEN_HEIGHT: usize = 144;
/// Number of pixels on the screen.
pub const SCREEN_PIXELS: usize = 23040;

// LCDC bits
/// LCDC bit 7: the LCD and PPU are on.
pub const LCD_ENABLE: u8 = 0x80;
/// LCDC bit 6: the window uses the tile map at 0x9C00.
pub const WINDOW_TILEMAP_AREA: u8 = 0x40;
/// LCDC bit 5: the window is on.
pub const WINDOW_ENABLE: u8 = 0x20;
/// LCDC bit 4: background and window tiles are addressed from 0x8000, unsigned.
pub const BG_WINDOW_TILE_AREA: u8 = 0x10;
/// LCDC bit 3: the background uses the tile map at 0x9C00.
pub const BG_TILEMAP_AREA: u8 = 0x08;
/// LCDC bit 2: objects are 8x16.
pub const OBJ_SIZE: u8 = 0x04;
/// LCDC bit 1: objects are drawn.
pub const OBJ_ENABLE: u8 = 0x02;
/// LCDC bit 0: background and window are drawn.
pub const BG_WINDOW_ENABLE: u8 = 0x01;

// STAT bits
/// STAT bit 1: the LY = LYC condition raises the STAT interrupt.
pub const STAT_LYC_INT: u8 = 0x02;
/// STAT bit 2: mode 2 raises the STAT interrupt.
pub const STAT_MODE2_INT: u8 = 0x04;
/// STAT bit 3: mode 1 raises the STAT interrupt.
pub const STAT_MODE1_INT: u8 = 0x08;
/// STAT bit 4: mode 0 raises the STAT interrupt.
pub const STAT_MODE0_INT: u8 = 0x10;

// object attribute flag bits
/// Object flag bit 0: the background and window are drawn over the object.
pub const OBJ_PRIORITY: u8 = 0x01;
/// Object flag bit 1: the object is flipped vertically.
pub const OBJ_Y_FLIP: u8 = 0x02;
/// Object flag bit 2: the object is flipped horizontally.
pub const OBJ_X_FLIP: u8 = 0x04;
/// Object flag bit 3: the object uses OBP1 instead of OBP0.
pub const OBJ_DMG_PALETTE: u8 = 0x08;

/// Width of a tile in pixels.
pub const TILE_WIDTH: u16 = 8;
/// Width and height of a tile map in tiles.
pub const TILEMAP_WIDTH: usize = 32;
/// Length of a tile's data in bytes.
pub const TILE_LEN: usize = 16;
/// Offset between an object's Y position and the screen line.
pub const OBJ_Y_OFFSET: u8 = 16;

/// One entry of object attribute memory.
#[derive(Debug, Clone, Copy, PartialEq, Eq, Structural)]
pub struct ObjectAttribute {
    pub pos_y: u8,
    pub pos_x: u8,
    pub tile_index: u8,
    pub flags: u8,
}

/// Where the background tile fetcher is.
#[derive(Debug, Clone, Copy, PartialEq, Eq, Structural)]
pub enum FetcherState {
    FetchId,
    FetchLow { id: u8 },
    FetchHigh { id: u8, low: u8 },
    Push { low: u8, high: u8 },
}

/// Where the object fetcher is.
#[derive(Debug, Clone, Copy, PartialEq, Eq, Structural)]
pub enum SpriteFetcherMode {
    FetchTile,
    FetchLow { row_addr: u16 },
    FetchHigh { row_addr: u16, low: u8 },
}

/// An object being fetched.
#[derive(Debug, Clone, Copy, PartialEq, Eq, Structural)]
pub struct SpriteFetcherState {
    pub delay: u8,
    pub obj: ObjectAttribute,
    pub mode: SpriteFetcherMode,
}

/// The state of pixel transfer (mode 3).
#[derive(Debug, Clone, Copy, PartialEq, Eq, Structural)]
pub struct Mode3State {
    pub fetcher_delay: u8,
    pub window_fetch: bool,
    pub fetcher_state: FetcherState,
    pub discard_counter: u8,
    pub sprite_fetcher: Option<SpriteFetcherState>,
}

/// The mode of a visible line: OAM scan, pixel transfer, horizontal blank.
#[derive(Debug, Clone, Copy, PartialEq, Eq, Structural)]
pub enum State {
    Mode2,
    Mode3(Mode3State),
    Mode0,
}

/// A pixel of an object, waiting in the object FIFO.
#[derive(Debug, Clone, Copy, PartialEq, Eq, Structural)]
pub struct SpritePixel {
    pub pixel: Pixel,
    pub bg_over_obj: bool,
    pub palette: u8,
}

/// The picture processing unit.
pub struct Ppu {
    fb: Vec<u32>,
    vram: Vec<u8>,
    oam: Vec<u8>,
    dot: u32,
    mode: State,
    lcdc: u8,
    scroll_x: u8,
    scroll_y: u8,
    wx: u8,
    wy: u8,
    bgp: u8,
    obp0: u8,
    obp1: u8,
    lyc: u8,
    stat: u8,
    stat_line: bool,
    line: u8,
    window_line: u8,
    object_buffer: Vec<ObjectAttribute>,
    wy_condition: Option<bool>,
    tile_x: u8,
    screen_x: u8,
    bg_fifo: VecDeque<Pixel>,
    obj_fifo: VecDeque<SpritePixel>,
    frame_ready: bool,
}

/// The state of the picture processing unit.
pub struct PpuView {
    /// The frame being drawn, row by row, as 0xRRGGBB colours.
    pub fb: Seq<u32>,
    pub vram: Seq<u8>,
    /// Object attribute memory, four bytes per entry.
    pub oam: Seq<u8>,
    /// Dots completed on this line (on the whole vertical blank, during it).
    pub dot: u32,
    pub mode: State,
    pub lcdc: u8,
    pub scroll_x: u8,
    pub scroll_y: u8,
    pub wx: u8,
    pub wy: u8,
    pub bgp: u8,
    pub obp0: u8,
    pub obp1: u8,
    pub lyc: u8,
    pub stat: u8,
    /// The level of the STAT interrupt line at the last dot.
    pub stat_line: bool,
    pub line: u8,
    pub window_line: u8,
    /// The objects found on this line by the OAM scan.
    pub object_buffer: Seq<ObjectAttribute>,
    pub wy_condition: Option<bool>,
    pub tile_x: u8,
    pub screen_x: u8,
    pub bg_fifo: Seq<Pixel>,
    pub obj_fifo: Seq<SpritePixel>,
    /// The frame buffer changed in a way that is to be shown.
    pub frame_ready: bool,
}

impl View for Ppu {
    type V = PpuView;

    closed spec fn view(&self) -> PpuView {
        PpuView {
            fb: self.fb@,
            vram: self.vram@,
            oam: self.oam@,
            dot: self.dot,
            mode: self.mode,
            lcdc: self.lcdc,
            scroll_x: self.scroll_x,
            scroll_y: self.scroll_y,
            wx: self.wx,
            wy: self.wy,
            bgp: self.bgp,
            obp0: self.obp0,
            obp1: self.obp1,
            lyc: self.lyc,
            stat: self.stat,
            stat_line: self.stat_line,
            line: self.line,
            window_line: self.window_line,
            object_buffer: self.object_buffer@,
            wy_condition: self.wy_condition,
            tile_x: self.tile_x,
            screen_x: self.screen_x,
            bg_fifo: self.bg_fifo@,
            obj_fifo: self.obj_fifo@,
            frame_ready: self.frame_ready,
        }
    }
}

/// The entry `k` of object attribute memory `oam`.
pub open spec fn oam_entry(oam: Seq<u8>, k: int) -> ObjectAttribute {
    ObjectAttribute { pos_y: oam[4 * k], pos_x: oam[4 * k + 1], tile_index: oam[4 * k + 2], flags: oam[4 * k + 3] }
}

/// Whether object `a` sorts after object `b`: by X position, then by tile index.
pub open spec fn obj_after(a: ObjectAttribute, b: ObjectAttribute) -> bool {
    a.pos_x > b.pos_x || (a.pos_x == b.pos_x && a.tile_index > b.tile_index)
}

/// `s` with `x` inserted after every element that does not sort after it.
pub open spec fn insert_sorted(s: Seq<ObjectAttribute>, x: ObjectAttribute) -> Seq<ObjectAttribute>
    decreases s.len(),
{
    if s.len() == 0 {
        seq![x]
    } else if obj_after(s.last(), x) {
        insert_sorted(s.drop_last(), x).push(s.last())
    } else {
        s.push(x)
    }
}

/// The stable sort of `s` by X position, then tile index.
pub open spec fn sort_objects(s: Seq<ObjectAttribute>) -> Seq<ObjectAttribute>
    decreases s.len(),
{
    if s.len() == 0 {
        s
    } else {
        insert_sorted(sort_objects(s.drop_last()), s.last())
    }
}

/// The index of the first object at or after `i` whose X position, less 8, is `x`.
pub open spec fn find_object(buf: Seq<ObjectAttribute>, x: u8, i: int) -> Option<int>
    decreases buf.len() - i,
{
    if i < 0 || i >= buf.len() {
        None
    } else if buf[i].pos_x.wrapping_sub(8) == x {
        Some(i)
    } else {
        find_object(buf, x, i + 1)
    }
}

/// The colour index of bit `i` of a tile row given by its `low` and `high` bytes.
pub open spec fn row_bits(low: u8, high: u8, i: u8) -> u8 {
    ((low >> i) & 0x01) | (((high >> i) & 0x01) << 1u8)
}

/// The eight pixels of a background tile row, left to right (bit 7 first).
pub open spec fn tile_row(low: u8, high: u8) -> Seq<Pixel> {
    Seq::new(8, |j: int| pixel_of(row_bits(low, high, (7 - j) as u8)))
}

/// The eight pixels of an object's tile row, left to right, flipped when the object
/// is flipped horizontally, with the object's priority and palette.
pub open spec fn sprite_row(obj: ObjectAttribute, low: u8, high: u8, obp0: u8, obp1: u8) -> Seq<SpritePixel> {
    Seq::new(
        8,
        |j: int|
            SpritePixel {
                pixel: pixel_of(
                    row_bits(low, high, if obj.flags & OBJ_X_FLIP != 0 { j as u8 } else { (7 - j) as u8 }),
                ),
                bg_over_obj: obj.flags & OBJ_PRIORITY != 0,
                palette: if obj.flags & OBJ_DMG_PALETTE != 0 { obp1 } else { obp0 },
            },
    )
}

/// The object FIFO after an object row is mixed in: a transparent pixel already
/// there is replaced, an opaque one stays, and the FIFO is extended to eight pixels.
pub open spec fn merge_sprite_row(fifo: Seq<SpritePixel>, row: Seq<SpritePixel>) -> Seq<SpritePixel> {
    Seq::new(
        if fifo.len() > 8 { fifo.len() } else { 8 },
        |j: int|
            if j < fifo.len() {
                if j < 8 && fifo[j].pixel == Pixel::Zero {
                    row[j]
                } else {
                    fifo[j]
                }
            } else {
                row[j]
            },
    )
}

/// The shade of a screen pixel, from the background pixel and the object pixel above it.
pub open spec fn composite(lcdc: u8, bgp: u8, bg: Pixel, sp: SpritePixel) -> Pixel {
    if lcdc & BG_WINDOW_ENABLE == 0 {
        if sp.pixel == Pixel::Zero {
            pixel_of(palette_entry(bgp, 0))
        } else {
            pixel_of(palette_entry(sp.palette, pixel_index(sp.pixel)))
        }
    } else if sp.pixel == Pixel::Zero {
        pixel_of(palette_entry(bgp, pixel_index(bg)))
    } else if sp.bg_over_obj && bg != Pixel::Zero {
        pixel_of(palette_entry(bgp, pixel_index(bg)))
    } else {
        pixel_of(palette_entry(sp.palette, pixel_index(sp.pixel)))
    }
}

/// The power-on state of the picture processing unit.
pub open spec fn initial_ppu() -> PpuView {
    PpuView {
        fb: Seq::new(SCREEN_PIXELS as nat, |i: int| 0u32),
        vram: Seq::new(VRAM_LEN as nat, |i: int| 0u8),
        oam: Seq::new(OAM_BYTES as nat, |i: int| 0u8),
        dot: 0,
        mode: State::Mode2,
        lcdc: LCD_ENABLE | BG_WINDOW_TILE_AREA | BG_WINDOW_ENABLE,
        scroll_x: 0,
        scroll_y: 0,
        wx: 0,
        wy: 0,
        bgp: 0xFC,
        obp0: 0xFF,
        obp1: 0xFF,
        lyc: 0,
        stat: 0,
        stat_line: false,
        line: 0,
        window_line: 0,
        object_buffer: Seq::empty(),
        wy_condition: None,
        tile_x: 0,
        screen_x: 0,
        bg_fifo: Seq::empty(),
        obj_fifo: Seq::empty(),
        frame_ready: true,
    }
}

impl PpuView {
    /// The invariant of the unit's state.
    pub open spec fn wf(self) -> bool {
        &&& self.fb.len() == SCREEN_PIXELS
        &&& self.vram.len() == VRAM_LEN
        &&& self.oam.len() == OAM_BYTES
        &&& self.window_line <= self.line
        &&& self.line >= 144 ==> self.dot <= 4559 && self.line == 144 + self.dot / 456 && self.mode == State::Mode2
        &&& self.line < 144 && self.mode == State::Mode2 ==> self.dot <= 79
        &&& self.mode == State::Mode0 ==> self.line < 144
        &&& self.mode matches State::Mode3(st) ==> {
            &&& self.line < 144
            &&& st.sprite_fetcher matches Some(sf) ==> sprite_mode_ok(sf.mode)
            &&& self.screen_x < SCREEN_WIDTH
            &&& st.fetcher_delay <= 10
            &&& !st.window_fetch ==> st.fetcher_delay <= 4
        }
    }

    /// Whether the LCD is on.
    pub open spec fn lcd_on(self) -> bool {
        self.lcdc & LCD_ENABLE != 0
    }

    /// The mode number: 1 in vertical blank, else 2, 3 or 0.
    pub open spec fn mode_number(self) -> u8 {
        if self.line >= 144 {
            1
        } else {
            match self.mode {
                State::Mode2 => 2,
                State::Mode3(_) => 3,
                State::Mode0 => 0,
            }
        }
    }

    /// VRAM is only locked during mode 3, freely accessible while the LCD is off.
    pub open spec fn vram_accessible(self) -> bool {
        !self.lcd_on() || self.mode_number() != 3
    }

    /// OAM is locked during modes 2 and 3, freely accessible while the LCD is off.
    pub open spec fn oam_accessible(self) -> bool {
        !self.lcd_on() || (self.mode_number() != 2 && self.mode_number() != 3)
    }

    /// The value that the CPU reads from STAT: the stored bits, with bit 5 telling
    /// whether LY equals LYC and bits 6 and 7 holding the mode (0 while the LCD is off).
    pub open spec fn stat_read(self) -> u8 {
        let m: u8 = if !self.lcd_on() {
            0
        } else {
            self.mode_number()
        };
        ((self.stat % 32) + (if self.lyc == self.line { 32u8 } else { 0u8 }) + m * 64) as u8
    }

    /// The level of the STAT interrupt line.
    pub open spec fn stat_line_level(self) -> bool {
        ||| self.stat & STAT_MODE2_INT != 0 && (self.mode_number() == 2 || (self.line == 144 && self.dot == 0))
        ||| self.stat & STAT_MODE1_INT != 0 && self.mode_number() == 1
        ||| self.stat & STAT_MODE0_INT != 0 && self.mode_number() == 0
        ||| self.stat & STAT_LYC_INT != 0 && self.line == self.lyc
    }

    /// The state after a write to LCDC: turning the LCD off restarts the frame and
    /// blanks the screen.
    pub open spec fn set_lcdc(self, value: u8) -> PpuView {
        if value & LCD_ENABLE == 0 {
            PpuView {
                lcdc: value,
                line: 0,
                window_line: 0,
                dot: 0,
                tile_x: 0,
                screen_x: 0,
                wy_condition: None,
                mode: State::Mode2,
                fb: Seq::new(SCREEN_PIXELS as nat, |i: int| 0u32),
                frame_ready: true,
                ..self
            }
        } else {
            PpuView { lcdc: value, ..self }
        }
    }

    /// Where in VRAM the background tile map starts.
    pub open spec fn bg_map_addr(self) -> int {
        if self.lcdc & BG_TILEMAP_AREA != 0 {
            0x1C00
        } else {
            0x1800
        }
    }

    /// Where in VRAM the window tile map starts.
    pub open spec fn window_map_addr(self) -> int {
        if self.lcdc & WINDOW_TILEMAP_AREA != 0 {
            0x1C00
        } else {
            0x1800
        }
    }

    /// Where in VRAM the data of background tile `id` starts: unsigned from 0x8000,
    /// or signed from 0x9000.
    pub open spec fn bg_tile_addr(self, id: u8) -> int {
        if self.lcdc & BG_WINDOW_TILE_AREA != 0 {
            id * 16
        } else if id < 128 {
            0x1000 + id * 16
        } else {
            0x1000 + (id - 256) * 16
        }
    }

    /// The height of objects.
    pub open spec fn sprite_height(self) -> u8 {
        if self.lcdc & OBJ_SIZE != 0 {
            16
        } else {
            8
        }
    }
}

/// The pixel transfer state at the start of mode 3.
pub open spec fn mode3_start(scroll_x: u8) -> Mode3State {
    Mode3State {
        fetcher_delay: 4,
        window_fetch: false,
        fetcher_state: FetcherState::FetchId,
        discard_counter: scroll_x % 8,
        sprite_fetcher: None,
    }
}

/// The object FIFO once the first `n` pixels of an object row are mixed in.
pub open spec fn merge_prefix(fifo: Seq<SpritePixel>, row: Seq<SpritePixel>, n: int) -> Seq<SpritePixel> {
    Seq::new(
        if fifo.len() > n { fifo.len() } else { n as nat },
        |j: int|
            if j < fifo.len() {
                if j < n && fifo[j].pixel == Pixel::Zero {
                    row[j]
                } else {
                    fifo[j]
                }
            } else {
                row[j]
            },
    )
}

/// The delay before an object found at screen position `screen_x` is fetched: six
/// dots plus the alignment penalty, rounded up to an even number.
pub open spec fn sprite_delay(screen_x: u8, scroll_x: u8) -> u8 {
    let m = screen_x.wrapping_add(scroll_x) % 8;
    let a: u8 = if m < 5 {
        (5 - m) as u8
    } else {
        0
    };
    let a2: u8 = if a % 2 == 1 {
        (a + 1) as u8
    } else {
        a
    };
    (6 + a2) as u8
}

impl PpuView {
    /// One dot of the OAM scan (mode 2): at dot 0 the buffers are cleared; the window
    /// condition is latched; on odd dots one OAM entry is checked against the line
    /// (while fewer than ten are buffered), and at dot 79 pixel transfer starts with
    /// the buffered objects sorted.
    #[verifier::opaque]
    pub open spec fn mode2_step(self) -> PpuView {
        let p0 = if self.dot == 0 {
            PpuView { object_buffer: Seq::empty(), bg_fifo: Seq::empty(), obj_fifo: Seq::empty(), ..self }
        } else {
            self
        };
        let p1 = if p0.wy_condition is None {
            PpuView { wy_condition: Some(p0.wy == p0.line), ..p0 }
        } else {
            p0
        };
        if p1.dot % 2 == 0 {
            p1
        } else {
            let p2 = if p1.dot == 79 {
                PpuView {
                    mode: State::Mode3(mode3_start(p1.scroll_x)),
                    screen_x: 0,
                    object_buffer: sort_objects(p1.object_buffer),
                    ..p1
                }
            } else {
                p1
            };
            if p2.object_buffer.len() >= 10 {
                p2
            } else {
                let entry = oam_entry(p2.oam, (p2.dot / 2) as int);
                let bottom = if entry.pos_y + p2.sprite_height() > 255 {
                    255
                } else {
                    entry.pos_y + p2.sprite_height()
                };
                if entry.pos_y <= p2.line + 16 && p2.line + 16 < bottom {
                    PpuView { object_buffer: p2.object_buffer.push(entry), ..p2 }
                } else {
                    p2
                }
            }
        }
    }

    /// The tile row that the background fetcher reads.
    pub open spec fn fetch_tile_row(self, window_fetch: bool) -> int {
        if window_fetch {
            (self.window_line % 8) as int
        } else {
            (self.scroll_y.wrapping_add(self.line) % 8) as int
        }
    }

    /// Whether a dot of the background fetcher proceeds without overflow.
    pub open spec fn fetcher_ok(self, state: FetcherState, delay: u8) -> bool {
        delay > 0 || self.dot % 2 == 0 || !(state is FetchId) || self.tile_x < 255
    }

    /// One dot of the background fetcher: after its start delay, on odd dots it reads
    /// the tile number, then the low and high bytes of the tile row, then pushes the
    /// eight pixels once the FIFO holds at most eight.
    pub open spec fn fetcher_step(self, state: FetcherState, delay: u8, window_fetch: bool) -> (
        PpuView,
        FetcherState,
        u8,
    ) {
        if delay > 0 {
            (self, state, (delay - 1) as u8)
        } else if self.dot % 2 == 0 {
            (self, state, 0)
        } else {
            match state {
                FetcherState::FetchId => {
                    let (col, row, base) = if window_fetch {
                        ((self.tile_x % 32) as int, ((self.window_line / 8) % 32) as int, self.window_map_addr())
                    } else {
                        (
                            (self.tile_x + self.scroll_x / 8) % 32,
                            ((self.line + self.scroll_y) / 8) % 32,
                            self.bg_map_addr(),
                        )
                    };
                    let id = self.vram[base + row * 32 + col];
                    (PpuView { tile_x: (self.tile_x + 1) as u8, ..self }, FetcherState::FetchLow { id }, 0)
                },
                FetcherState::FetchLow { id } => (
                    self,
                    FetcherState::FetchHigh {
                        id,
                        low: self.vram[self.bg_tile_addr(id) + self.fetch_tile_row(window_fetch) * 2],
                    },
                    0,
                ),
                FetcherState::FetchHigh { id, low } => (
                    self,
                    FetcherState::Push {
                        low,
                        high: self.vram[self.bg_tile_addr(id) + self.fetch_tile_row(window_fetch) * 2 + 1],
                    },
                    0,
                ),
                FetcherState::Push { low, high } => if self.bg_fifo.len() > 8 {
                    (self, state, 0)
                } else {
                    (PpuView { bg_fifo: self.bg_fifo + tile_row(low, high), ..self }, FetcherState::FetchId, 0)
                },
            }
        }
    }

    /// Whether a dot of the object fetcher proceeds without overflow: the object must
    /// not lie below the line, and an 8x8 object flipped vertically must cover it.
    pub open spec fn sprite_fetch_ok(self, sf: SpriteFetcherState) -> bool {
        ||| sf.delay > 0
        ||| self.dot % 2 == 0
        ||| !(sf.mode is FetchTile)
        ||| sf.obj.pos_y <= self.line + 16 && (self.lcdc & OBJ_SIZE != 0 || sf.obj.flags & OBJ_Y_FLIP == 0
            || self.line + 16 - sf.obj.pos_y <= 7)
    }

    /// Where in VRAM the object's row for the current line starts.
    pub open spec fn sprite_row_addr(self, obj: ObjectAttribute) -> u16 {
        let d = self.line + 16 - obj.pos_y;
        let y_flip = obj.flags & OBJ_Y_FLIP != 0;
        if self.lcdc & OBJ_SIZE != 0 {
            let tile = if (d >= 8) != y_flip {
                obj.tile_index | 0x01
            } else {
                obj.tile_index & 0xFE
            };
            let row = if y_flip {
                7 - d % 8
            } else {
                d % 8
            };
            (tile * 16 + row * 2) as u16
        } else {
            let row = if y_flip {
                7 - d
            } else {
                d
            };
            (obj.tile_index * 16 + row * 2) as u16
        }
    }

    /// One dot of the object fetcher: after its delay, on odd dots it finds the row,
    /// reads its low and high bytes, then mixes the row into the object FIFO and
    /// reports that it is done.
    pub open spec fn sprite_fetch_step(self, sf: SpriteFetcherState) -> (PpuView, SpriteFetcherState, bool) {
        if sf.delay > 0 {
            (self, SpriteFetcherState { delay: (sf.delay - 1) as u8, ..sf }, false)
        } else if self.dot % 2 == 0 {
            (self, sf, false)
        } else {
            match sf.mode {
                SpriteFetcherMode::FetchTile => (
                    self,
                    SpriteFetcherState {
                        mode: SpriteFetcherMode::FetchLow { row_addr: self.sprite_row_addr(sf.obj) },
                        ..sf
                    },
                    false,
                ),
                SpriteFetcherMode::FetchLow { row_addr } => (
                    self,
                    SpriteFetcherState {
                        mode: SpriteFetcherMode::FetchHigh { row_addr, low: self.vram[row_addr as int] },
                        ..sf
                    },
                    false,
                ),
                SpriteFetcherMode::FetchHigh { row_addr, low } => {
                    let row = sprite_row(sf.obj, low, self.vram[row_addr + 1], self.obp0, self.obp1);
                    (PpuView { obj_fifo: merge_sprite_row(self.obj_fifo, row), ..self }, sf, true)
                },
            }
        }
    }

    /// One dot of the pixel shifter: a background pixel is taken from the FIFO and,
    /// unless discarded for fine scrolling or held back because an object starts
    /// here (which is then taken from the buffer and handed to the object fetcher),
    /// mixed with the object FIFO and drawn; the line's pixel transfer ends at the
    /// right edge.
    pub open spec fn shifter_step(self, discard: u8, sf: Option<SpriteFetcherState>) -> (
        PpuView,
        u8,
        Option<SpriteFetcherState>,
    ) {
        if self.bg_fifo.len() == 0 {
            (self, discard, sf)
        } else {
            let bg = self.bg_fifo[0];
            let p1 = PpuView { bg_fifo: self.bg_fifo.drop_first(), ..self };
            if discard > 0 {
                (p1, (discard - 1) as u8, sf)
            } else {
                let found = if self.lcdc & OBJ_ENABLE != 0 {
                    find_object(self.object_buffer, self.screen_x, 0)
                } else {
                    None
                };
                match found {
                    Some(i) => (
                        PpuView { object_buffer: self.object_buffer.remove(i), ..self },
                        discard,
                        Some(
                            SpriteFetcherState {
                                delay: sprite_delay(self.screen_x, self.scroll_x),
                                mode: SpriteFetcherMode::FetchTile,
                                obj: self.object_buffer[i],
                            },
                        ),
                    ),
                    None => {
                        let sp = if self.obj_fifo.len() > 0 {
                            self.obj_fifo[0]
                        } else {
                            SpritePixel { pixel: Pixel::Zero, bg_over_obj: false, palette: self.obp0 }
                        };
                        let obj_fifo = if self.obj_fifo.len() > 0 {
                            self.obj_fifo.drop_first()
                        } else {
                            self.obj_fifo
                        };
                        let color = shade_color(composite(self.lcdc, self.bgp, bg, sp));
                        let x = (self.screen_x + 1) as u8;
                        (
                            PpuView {
                                fb: self.fb.update(self.screen_x + self.line * 160, color),
                                screen_x: x,
                                mode: if x == 160 { State::Mode0 } else { self.mode },
                                obj_fifo,
                                ..p1
                            },
                            discard,
                            sf,
                        )
                    },
                }
            }
        }
    }

    /// Whether a dot of pixel transfer proceeds without overflow.
    pub open spec fn mode3_ok(self, st: Mode3State) -> bool {
        match st.sprite_fetcher {
            Some(sf) => self.sprite_fetch_ok(sf),
            None => self.fetcher_ok(st.fetcher_state, st.fetcher_delay),
        }
    }

    /// One dot of pixel transfer (mode 3). While an object is being fetched, only the
    /// object fetcher runs, and its progress is kept only once it is done. Otherwise
    /// the background fetcher runs, then either the window starts (restarting the
    /// fetch from the window's tile map) or the shifter runs.
    #[verifier::opaque]
    pub open spec fn mode3_step(self, st: Mode3State) -> PpuView {
        match st.sprite_fetcher {
            Some(sf) => {
                let (p, sf2, done) = self.sprite_fetch_step(sf);
                if done {
                    PpuView { mode: State::Mode3(Mode3State { sprite_fetcher: None, ..st }), ..p }
                } else {
                    p
                }
            },
            None => {
                let (p1, fs, delay) = self.fetcher_step(st.fetcher_state, st.fetcher_delay, st.window_fetch);
                if p1.wy_condition == Some(true) && p1.lcdc & WINDOW_ENABLE != 0 && p1.screen_x + 7 == p1.wx
                    && !st.window_fetch {
                    PpuView {
                        bg_fifo: Seq::empty(),
                        tile_x: 0,
                        mode: State::Mode3(
                            Mode3State {
                                fetcher_state: FetcherState::FetchId,
                                window_fetch: true,
                                fetcher_delay: (delay + 6) as u8,
                                discard_counter: st.discard_counter,
                                sprite_fetcher: None,
                            },
                        ),
                        ..p1
                    }
                } else {
                    let (p2, discard, sfo) = p1.shifter_step(st.discard_counter, None);
                    if p2.mode == State::Mode0 {
                        p2
                    } else {
                        PpuView {
                            mode: State::Mode3(
                                Mode3State {
                                    fetcher_state: fs,
                                    window_fetch: st.window_fetch,
                                    fetcher_delay: delay,
                                    discard_counter: discard,
                                    sprite_fetcher: sfo,
                                },
                            ),
                            ..p2
                        }
                    }
                }
            },
        }
    }

    /// Whether a dot proceeds without overflow.
    pub open spec fn step_ok(self) -> bool {
        ||| !self.lcd_on()
        ||| self.line >= 144
        ||| self.dot < u32::MAX && (self.mode matches State::Mode3(st) ==> self.mode3_ok(st))
    }

    /// The end of a visible line, at its 456th dot: the frame is shown, the line (and
    /// the window line, when the window was reached) advances and mode 2 starts over.
    pub open spec fn hblank_step(self) -> PpuView {
        if self.dot == 455 {
            PpuView {
                frame_ready: true,
                line: (self.line + 1) as u8,
                window_line: if self.wy_condition == Some(true) {
                    (self.window_line + 1) as u8
                } else {
                    self.window_line
                },
                dot: 0,
                tile_x: 0,
                screen_x: 0,
                wy_condition: if self.wy_condition == Some(false) {
                    None
                } else {
                    self.wy_condition
                },
                mode: State::Mode2,
                ..self
            }
        } else {
            self
        }
    }

    /// One dot of the picture processing unit, and the interrupts that it raises. With
    /// the LCD off nothing happens. A rising edge of the STAT line raises the STAT
    /// interrupt. During vertical blank (ten lines, 4560 dots) the line advances every
    /// 456 dots and the frame restarts at the end; otherwise the current mode runs.
    pub open spec fn step(self) -> (PpuView, Seq<Interrupt>) {
        if !self.lcd_on() {
            (self, Seq::empty())
        } else {
            let nl = self.stat_line_level();
            let q1: Seq<Interrupt> = if nl && !self.stat_line {
                seq![Interrupt::Stat]
            } else {
                Seq::empty()
            };
            let p = PpuView { stat_line: nl, ..self };
            if p.line >= 144 {
                let q2 = if p.dot == 0 {
                    q1.push(Interrupt::VBlank)
                } else {
                    q1
                };
                let p1 = if p.dot % 456 == 455 {
                    PpuView { line: (p.line + 1) as u8, ..p }
                } else {
                    p
                };
                if p.dot == 4559 {
                    (
                        PpuView {
                            dot: 0,
                            tile_x: 0,
                            screen_x: 0,
                            line: 0,
                            window_line: 0,
                            wy_condition: None,
                            ..p1
                        },
                        q2,
                    )
                } else {
                    (PpuView { dot: (p1.dot + 1) as u32, ..p1 }, q2)
                }
            } else {
                let p1 = match p.mode {
                    State::Mode2 => p.mode2_step(),
                    State::Mode3(st) => p.mode3_step(st),
                    State::Mode0 => p.hblank_step(),
                };
                (PpuView { dot: (p1.dot + 1) as u32, ..p1 }, q1)
            }
        }
    }
}

impl Ppu {
    /// The state after power-on: LCDC 0x91, BGP 0xFC, everything else zero.
    pub fn new() -> (p: Self)
        ensures
            p@ == initial_ppu(),
            p@.wf(),
    {
        let fb = vec![0u32; SCREEN_PIXELS];
        let vram = vec![0u8; VRAM_LEN];
        let oam = vec![0u8; OAM_BYTES];
        let object_buffer: Vec<ObjectAttribute> = Vec::new();
        let bg_fifo: VecDeque<Pixel> = VecDeque::new();
        let obj_fifo: VecDeque<SpritePixel> = VecDeque::new();
        assert(fb@ =~= Seq::new(SCREEN_PIXELS as nat, |i: int| 0u32));
        assert(vram@ =~= Seq::new(VRAM_LEN as nat, |i: int| 0u8));
        assert(oam@ =~= Seq::new(OAM_BYTES as nat, |i: int| 0u8));
        Self {
            fb,
            vram,
            oam,
            // can be thought of as representing how many dots been completed
            dot: 0,
            mode: State::Mode2,
            scroll_x: 0,
            scroll_y: 0,
            wx: 0,
            wy: 0,
            lyc: 0,
            stat: 0,
            stat_line: false,
            line: 0,
            window_line: 0,
            // DMG post-boot LCDC = 0x91
            lcdc: LCD_ENABLE | BG_WINDOW_TILE_AREA | BG_WINDOW_ENABLE,
            wy_condition: None,
            // DMG post-boot BGP = 0xFC
            bgp: 0xFC,
            // OBP0/OBP1 are left uninitialized by the boot ROM; 0xFF by convention
            obp0: 0xFF,
            obp1: 0xFF,
            object_buffer,
            tile_x: 0,
            screen_x: 0,
            bg_fifo,
            obj_fifo,
            frame_ready: true,
        }
    }
}


impl Ppu {
    /// VRAM, unless it is locked (during mode 3 with the LCD on).
    pub fn vram(&self) -> (r: Option<&[u8]>)
        ensures
            r is Some <==> self@.vram_accessible(),
            r matches Some(v) ==> v@ == self@.vram,
    {
        if self.vram_accessible() {
            Some(self.vram.as_slice())
        } else {
            None
        }
    }

    /// OAM as bytes, unless it is locked (during modes 2 and 3 with the LCD on).
    pub fn oam(&self) -> (r: Option<&[u8]>)
        ensures
            r is Some <==> self@.oam_accessible(),
            r matches Some(v) ==> v@ == self@.oam,
    {
        if self.oam_accessible() {
            Some(self.oam.as_slice())
        } else {
            None
        }
    }

    /// A CPU write to VRAM at offset `idx`; ignored while VRAM is locked.
    pub fn write_vram(&mut self, idx: usize, value: u8)
        requires
            old(self)@.wf(),
            idx < VRAM_LEN,
        ensures
            final(self)@ == (if old(self)@.vram_accessible() {
                PpuView { vram: old(self)@.vram.update(idx as int, value), ..old(self)@ }
            } else {
                old(self)@
            }),
    {
        if self.vram_accessible() {
            self.vram.set(idx, value);
        }
    }

    /// A CPU write to OAM at byte offset `idx`; ignored while OAM is locked.
    pub fn write_oam(&mut self, idx: usize, value: u8)
        requires
            old(self)@.wf(),
            idx < OAM_BYTES,
        ensures
            final(self)@ == (if old(self)@.oam_accessible() {
                PpuView { oam: old(self)@.oam.update(idx as int, value), ..old(self)@ }
            } else {
                old(self)@
            }),
    {
        if self.oam_accessible() {
            self.oam.set(idx, value);
        }
    }

    fn vram_accessible(&self) -> (r: bool)
        ensures
            r == self@.vram_accessible(),
    {
        self.lcdc & LCD_ENABLE == 0 || self.mode_number() != 3
    }

    fn oam_accessible(&self) -> (r: bool)
        ensures
            r == self@.oam_accessible(),
    {
        let m = self.mode_number();
        self.lcdc & LCD_ENABLE == 0 || !(m == 2 || m == 3)
    }

    fn mode_number(&self) -> (r: u8)
        ensures
            r == self@.mode_number(),
            r < 4,
    {
        if self.line >= 144 {
            1
        } else {
            match self.mode {
                State::Mode2 => 2,
                State::Mode3(_) => 3,
                State::Mode0 => 0,
            }
        }
    }

    /// The value that the CPU reads from LY: the current line.
    pub fn ly(&self) -> (r: u8)
        ensures
            r == self@.line,
    {
        self.line
    }

    /// The value that the CPU reads from STAT.
    pub fn stat(&self) -> (r: u8)
        ensures
            r == self@.stat_read(),
    {
        let m: u8 = if self.lcdc & LCD_ENABLE == 0 {
            0
        } else {
            self.mode_number()
        };
        let eq: u8 = if self.lyc == self.line {
            1
        } else {
            0
        };
        let stat = self.stat;
        let r = (stat & 0x1F) | (eq << 5u8) | (m << 6u8);
        assert(r == ((stat % 32) + (if eq == 1 { 32u8 } else { 0u8 }) + m * 64) as u8) by (bit_vector)
            requires
                r == (stat & 0x1F) | (eq << 5u8) | (m << 6u8),
                eq == 0 || eq == 1,
                m < 4,
        ;
        r
    }

    /// A write to STAT.
    pub fn set_stat(&mut self, value: u8)
        ensures
            final(self)@ == (PpuView { stat: value, ..old(self)@ }),
    {
        self.stat = value;
    }

    fn compute_stat_line(&self) -> (r: bool)
        ensures
            r == self@.stat_line_level(),
    {
        let m = self.mode_number();
        (self.stat & STAT_MODE2_INT != 0 && (m == 2 || (self.line == 144 && self.dot == 0))) || (self.stat
            & STAT_MODE1_INT != 0 && m == 1) || (self.stat & STAT_MODE0_INT != 0 && m == 0) || (self.stat
            & STAT_LYC_INT != 0 && self.line == self.lyc)
    }

    /// The value that the CPU reads from LCDC.
    pub fn lcdc(&self) -> (r: u8)
        ensures
            r == self@.lcdc,
    {
        self.lcdc
    }

    /// A write to LCDC.
    pub fn set_lcdc(&mut self, value: u8)
        requires
            old(self)@.wf(),
        ensures
            final(self)@ == old(self)@.set_lcdc(value),
            final(self)@.wf(),
    {
        self.lcdc = value;
        if value & LCD_ENABLE == 0 {
            // reset everything
            self.line = 0;
            self.window_line = 0;
            self.dot = 0;
            self.tile_x = 0;
            self.screen_x = 0;
            self.wy_condition = None;
            self.mode = State::Mode2;
            // draw black screen
            self.fb = vec![0u32; SCREEN_PIXELS];
            assert(self.fb@ =~= Seq::new(SCREEN_PIXELS as nat, |i: int| 0u32));
            self.frame_ready = true;
        }
    }

    /// The value that the CPU reads from SCX.
    pub fn scroll_x(&self) -> (r: u8)
        ensures
            r == self@.scroll_x,
    {
        self.scroll_x
    }

    /// A write to SCX.
    pub fn set_scroll_x(&mut self, value: u8)
        ensures
            final(self)@ == (PpuView { scroll_x: value, ..old(self)@ }),
    {
        self.scroll_x = value;
    }

    /// The value that the CPU reads from SCY.
    pub fn scroll_y(&self) -> (r: u8)
        ensures
            r == self@.scroll_y,
    {
        self.scroll_y
    }

    /// A write to SCY.
    pub fn set_scroll_y(&mut self, value: u8)
        ensures
            final(self)@ == (PpuView { scroll_y: value, ..old(self)@ }),
    {
        self.scroll_y = value;
    }

    /// The value that the CPU reads from WX.
    pub fn wx(&self) -> (r: u8)
        ensures
            r == self@.wx,
    {
        self.wx
    }

    /// A write to WX.
    pub fn set_wx(&mut self, value: u8)
        ensures
            final(self)@ == (PpuView { wx: value, ..old(self)@ }),
    {
        self.wx = value;
    }

    /// The value that the CPU reads from WY.
    pub fn wy(&self) -> (r: u8)
        ensures
            r == self@.wy,
    {
        self.wy
    }

    /// A write to WY.
    pub fn set_wy(&mut self, value: u8)
        ensures
            final(self)@ == (PpuView { wy: value, ..old(self)@ }),
    {
        self.wy = value;
    }

    /// The value that the CPU reads from BGP.
    pub fn bgp(&self) -> (r: u8)
        ensures
            r == self@.bgp,
    {
        self.bgp
    }

    /// A write to BGP.
    pub fn set_bgp(&mut self, value: u8)
        ensures
            final(self)@ == (PpuView { bgp: value, ..old(self)@ }),
    {
        self.bgp = value;
    }

    /// The value that the CPU reads from OBP0.
    pub fn obp0(&self) -> (r: u8)
        ensures
            r == self@.obp0,
    {
        self.obp0
    }

    /// A write to OBP0.
    pub fn set_obp0(&mut self, value: u8)
        ensures
            final(self)@ == (PpuView { obp0: value, ..old(self)@ }),
    {
        self.obp0 = value;
    }

    /// The value that the CPU reads from OBP1.
    pub fn obp1(&self) -> (r: u8)
        ensures
            r == self@.obp1,
    {
        self.obp1
    }

    /// A write to OBP1.
    pub fn set_obp1(&mut self, value: u8)
        ensures
            final(self)@ == (PpuView { obp1: value, ..old(self)@ }),
    {
        self.obp1 = value;
    }

    /// The value that the CPU reads from LYC.
    pub fn lyc(&self) -> (r: u8)
        ensures
            r == self@.lyc,
    {
        self.lyc
    }

    /// A write to LYC.
    pub fn set_lyc(&mut self, value: u8)
        ensures
            final(self)@ == (PpuView { lyc: value, ..old(self)@ }),
    {
        self.lyc = value;
    }

    /// The frame buffer, row by row, as 0xRRGGBB colours.
    pub fn framebuffer(&self) -> (r: &[u32])
        ensures
            r@ == self@.fb,
    {
        self.fb.as_slice()
    }

    /// Whether the frame buffer is to be shown; clears the request.
    pub fn take_frame_ready(&mut self) -> (r: bool)
        ensures
            r == old(self)@.frame_ready,
            final(self)@ == (PpuView { frame_ready: false, ..old(self)@ }),
    {
        let r = self.frame_ready;
        self.frame_ready = false;
        r
    }

    fn bg_map_addr(&self) -> (r: usize)
        ensures
            r == self@.bg_map_addr(),
    {
        if self.lcdc & BG_TILEMAP_AREA != 0 {
            // if set, BG uses tilemap 0x9C00
            0x1C00
        } else {
            // if clear, tilemap 0x9800 is used
            0x1800
        }
    }

    fn window_map_addr(&self) -> (r: usize)
        ensures
            r == self@.window_map_addr(),
    {
        if self.lcdc & WINDOW_TILEMAP_AREA != 0 {
            0x1C00
        } else {
            0x1800
        }
    }

    fn bg_tile_addr(&self, id: u8) -> (r: usize)
        ensures
            r == self@.bg_tile_addr(id),
            r + 16 <= 0x1800,
    {
        if self.lcdc & BG_WINDOW_TILE_AREA != 0 {
            // 0x8000 mode, unsigned addressing
            (id as usize) * TILE_LEN
        } else if id < 128 {
            // 0x9000 mode, signed addressing
            0x1000 + (id as usize) * TILE_LEN
        } else {
            0x1000 - (256 - id as usize) * TILE_LEN
        }
    }

    fn sprite_height(&self) -> (r: u8)
        ensures
            r == self@.sprite_height(),
    {
        if self.lcdc & OBJ_SIZE != 0 {
            16
        } else {
            8
        }
    }
}

proof fn lemma_insert_sorted_len(s: Seq<ObjectAttribute>, x: ObjectAttribute)
    ensures
        insert_sorted(s, x).len() == s.len() + 1,
    decreases s.len(),
{
    if s.len() > 0 && obj_after(s.last(), x) {
        lemma_insert_sorted_len(s.drop_last(), x);
    }
}

proof fn lemma_sort_objects_len(s: Seq<ObjectAttribute>)
    ensures
        sort_objects(s).len() == s.len(),
    decreases s.len(),
{
    if s.len() > 0 {
        lemma_sort_objects_len(s.drop_last());
        lemma_insert_sorted_len(sort_objects(s.drop_last()), s.last());
    }
}

/// Inserting `x` lands it right after the elements that it does not sort before.
proof fn lemma_insert_at(s: Seq<ObjectAttribute>, x: ObjectAttribute, j: int)
    requires
        0 <= j <= s.len(),
        j == 0 || !obj_after(s[j - 1], x),
        forall|k: int| j <= k < s.len() ==> obj_after(#[trigger] s[k], x),
    ensures
        insert_sorted(s, x) == s.take(j) + seq![x] + s.skip(j),
    decreases s.len(),
{
    if s.len() == j {
        if s.len() == 0 {
            assert(s.take(j) + seq![x] + s.skip(j) =~= seq![x]);
        } else {
            assert(s.take(j) + seq![x] + s.skip(j) =~= s.push(x));
        }
    } else {
        assert(obj_after(s[s.len() - 1], x));
        let t = s.drop_last();
        assert forall|k: int| j <= k < t.len() implies obj_after(#[trigger] t[k], x) by {
            assert(t[k] == s[k]);
        }
        lemma_insert_at(t, x, j);
        assert((t.take(j) + seq![x] + t.skip(j)).push(s.last()) =~= s.take(j) + seq![x] + s.skip(j));
    }
}

/// Sorts the objects by X position, then tile index, keeping equal ones in order.
fn sort_object_buffer(v: &mut Vec<ObjectAttribute>)
    ensures
        final(v)@ == sort_objects(old(v)@),
{
    let ghost orig = v@;
    let n = v.len();
    if n == 0 {
        assert(sort_objects(orig) == orig);
        return ;
    }
    let mut i: usize = 1;
    proof {
        let e = Seq::<ObjectAttribute>::empty();
        assert(orig.take(1).drop_last() =~= e);
        assert(sort_objects(e) == e);
        assert(orig.take(1).last() == orig[0]);
        assert(sort_objects(orig.take(1)) == insert_sorted(sort_objects(e), orig[0]));
        assert(insert_sorted(e, orig[0]) == seq![orig[0]]);
        assert(v@.take(1) =~= sort_objects(orig.take(1)));
    }
    while i < n
        invariant
            1 <= i <= n,
            n == orig.len(),
            v@.len() == n,
            v@.take(i as int) == sort_objects(orig.take(i as int)),
            v@.skip(i as int) == orig.skip(i as int),
        decreases n - i,
    {
        let ghost sorted = sort_objects(orig.take(i as int));
        let ghost x = orig[i as int];
        proof {
            lemma_sort_objects_len(orig.take(i as int));
            assert(v@ =~= v@.take(i as int) + v@.skip(i as int));
            assert(orig.skip(i as int) =~= seq![x] + orig.skip(i + 1));
            assert(v@ =~= sorted + seq![x] + orig.skip(i + 1));
        }
        let mut j: usize = i;
        while j > 0 && (v[j - 1].pos_x > v[j].pos_x || (v[j - 1].pos_x == v[j].pos_x && v[j - 1].tile_index
            > v[j].tile_index))
            invariant
                0 <= j <= i < n,
                sorted.len() == i,
                v@.len() == n,
                v@ == sorted.take(j as int) + seq![x] + sorted.skip(j as int) + orig.skip(i + 1),
                forall|k: int| j <= k < i ==> obj_after(#[trigger] sorted[k], x),
            decreases j,
        {
            proof {
                assert(v@[j as int] == x);
                assert(v@[j - 1] == sorted[j - 1]);
            }
            let left = v[j - 1];
            let cur = v[j];
            v.set(j - 1, cur);
            v.set(j, left);
            proof {
                assert(v@ =~= sorted.take(j - 1) + seq![x] + sorted.skip(j - 1) + orig.skip(i + 1));
            }
            j = j - 1;
        }
        proof {
            if j > 0 {
                assert(v@[j as int] == x);
                assert(v@[j - 1] == sorted[j - 1]);
            }
            lemma_insert_at(sorted, x, j as int);
            let t = orig.take(i + 1);
            assert(t.drop_last() =~= orig.take(i as int));
            assert(t.last() == x);
            assert(sort_objects(t) == insert_sorted(sorted, x));
            assert(v@.take(i + 1) =~= sort_objects(t));
            assert(v@.skip(i + 1) =~= orig.skip(i + 1));
        }
        i = i + 1;
    }
    assert(v@ =~= v@.take(n as int));
    assert(orig.take(n as int) =~= orig);
}

impl Ppu {
    fn composite_pixel(&self, bg_pixel: Pixel, sprite_pixel: SpritePixel) -> (p: Pixel)
        ensures
            p == composite(self@.lcdc, self@.bgp, bg_pixel, sprite_pixel),
    {
        if self.lcdc & BG_WINDOW_ENABLE == 0 {
            return if sprite_pixel.pixel == Pixel::Zero {
                Pixel::Zero.apply_palette(self.bgp)
            } else {
                sprite_pixel.pixel.apply_palette(sprite_pixel.palette)
            };
        }
        if sprite_pixel.pixel == Pixel::Zero {
            return bg_pixel.apply_palette(self.bgp);
        }
        if sprite_pixel.bg_over_obj {
            return if bg_pixel == Pixel::Zero {
                sprite_pixel.pixel.apply_palette(sprite_pixel.palette)
            } else {
                bg_pixel.apply_palette(self.bgp)
            };
        }
        sprite_pixel.pixel.apply_palette(sprite_pixel.palette)
    }

    fn step_fetcher(&mut self, state: FetcherState, delay: u8, window_fetch: bool) -> (r: (FetcherState, u8))
        requires
            old(self)@.wf(),
            old(self)@.fetcher_ok(state, delay),
        ensures
            (final(self)@, r.0, r.1) == old(self)@.fetcher_step(state, delay, window_fetch),
            final(self)@.wf(),
    {
        // 4 dot penalty on first fetch
        if delay > 0 {
            return (state, delay - 1);
        }
        // mode 3 starts on dot 80, so operations that take two dots should work on the second
        // dot, i.e. on dot 81, 83, 85, not 80, 82, 84
        // thus we require that dot is odd for these operations
        if self.dot % 2 == 0 {
            return (state, 0);
        }
        match state {
            FetcherState::FetchId => {
                let (map_col, map_row, base): (u8, u8, usize) = if window_fetch {
                    (self.tile_x % 32, (self.window_line / 8) % 32, self.window_map_addr())
                } else {
                    let map_row_px: u16 = self.line as u16 + self.scroll_y as u16;
                    let map_row: u16 = (map_row_px / TILE_WIDTH) % (TILEMAP_WIDTH as u16);
                    let map_col: u16 = (self.tile_x as u16 + (self.scroll_x as u16) / TILE_WIDTH) % (
                    TILEMAP_WIDTH as u16);
                    (map_col as u8, map_row as u8, self.bg_map_addr())
                };
                let id_offset = (map_row as usize) * TILEMAP_WIDTH + (map_col as usize);
                let id = self.vram[base + id_offset];
                self.tile_x = self.tile_x + 1;
                (FetcherState::FetchLow { id }, 0)
            },
            FetcherState::FetchLow { id } => {
                let tile_row: u8 = if window_fetch {
                    self.window_line % 8
                } else {
                    self.scroll_y.wrapping_add(self.line) % 8
                };
                let low = self.vram[self.bg_tile_addr(id) + (tile_row as usize) * 2];
                (FetcherState::FetchHigh { id, low }, 0)
            },
            FetcherState::FetchHigh { id, low } => {
                let tile_row: u8 = if window_fetch {
                    self.window_line % 8
                } else {
                    self.scroll_y.wrapping_add(self.line) % 8
                };
                let high = self.vram[self.bg_tile_addr(id) + (tile_row as usize) * 2 + 1];
                (FetcherState::Push { low, high }, 0)
            },
            FetcherState::Push { low, high } => {
                // fifo must have less than 8 pixels inside already
                // if this condition is not met, then pushing will be reattempted in 2 dots
                if self.bg_fifo.len() > 8 {
                    return (state, 0);
                }
                let ghost old_fifo = self.bg_fifo@;
                let mut i: u8 = 8;
                while i > 0
                    invariant
                        i <= 8,
                        self.bg_fifo@ == old_fifo + tile_row(low, high).take(8 - i),
                        self.fb@ == old(self)@.fb,
                        self.vram@ == old(self)@.vram,
                        self.oam@ == old(self)@.oam,
                        self.object_buffer@ == old(self)@.object_buffer,
                        self.obj_fifo@ == old(self)@.obj_fifo,
                        self.dot == old(self)@.dot,
                        self.mode == old(self)@.mode,
                        self.lcdc == old(self)@.lcdc,
                        self.scroll_x == old(self)@.scroll_x,
                        self.scroll_y == old(self)@.scroll_y,
                        self.wx == old(self)@.wx,
                        self.wy == old(self)@.wy,
                        self.bgp == old(self)@.bgp,
                        self.obp0 == old(self)@.obp0,
                        self.obp1 == old(self)@.obp1,
                        self.lyc == old(self)@.lyc,
                        self.stat == old(self)@.stat,
                        self.stat_line == old(self)@.stat_line,
                        self.line == old(self)@.line,
                        self.window_line == old(self)@.window_line,
                        self.wy_condition == old(self)@.wy_condition,
                        self.tile_x == old(self)@.tile_x,
                        self.screen_x == old(self)@.screen_x,
                        self.frame_ready == old(self)@.frame_ready,
                    decreases i,
                {
                    i = i - 1;
                    let low_bit = (low >> i) & 0x01;
                    let high_bit = (high >> i) & 0x01;
                    let pixel_bits = low_bit | (high_bit << 1u8);
                    assert(pixel_bits < 4) by (bit_vector)
                        requires
                            pixel_bits == ((low >> i) & 0x01) | (((high >> i) & 0x01) << 1u8),
                    ;
                    let pixel = Pixel::from_bits(pixel_bits);
                    self.bg_fifo.push_back(pixel);
                    proof {
                        assert(tile_row(low, high)[7 - i] == pixel);
                        assert(tile_row(low, high).take(8 - i) =~= tile_row(low, high).take(7 - i).push(pixel));
                    }
                }
                assert(tile_row(low, high).take(8) =~= tile_row(low, high));
                (FetcherState::FetchId, 0)
            },
        }
    }
}

proof fn lemma_find_object(buf: Seq<ObjectAttribute>, x: u8, i: int)
    requires
        0 <= i,
    ensures
        find_object(buf, x, i) matches Some(k) ==> i <= k < buf.len() && buf[k].pos_x.wrapping_sub(8) == x,
    decreases buf.len() - i,
{
    if i < buf.len() && buf[i].pos_x.wrapping_sub(8) != x {
        lemma_find_object(buf, x, i + 1);
    }
}

/// Whether the VRAM address that an object fetcher holds lies inside VRAM.
pub open spec fn sprite_mode_ok(mode: SpriteFetcherMode) -> bool {
    match mode {
        SpriteFetcherMode::FetchTile => true,
        SpriteFetcherMode::FetchLow { row_addr } => row_addr + 1 < VRAM_LEN,
        SpriteFetcherMode::FetchHigh { row_addr, .. } => row_addr + 1 < VRAM_LEN,
    }
}

impl Ppu {
    fn step_sprite_fetcher(&mut self, state: SpriteFetcherState) -> (r: (SpriteFetcherState, bool))
        requires
            old(self)@.wf(),
            old(self)@.line < 144,
            old(self)@.sprite_fetch_ok(state),
            sprite_mode_ok(state.mode),
        ensures
            (final(self)@, r.0, r.1) == old(self)@.sprite_fetch_step(state),
            final(self)@.wf(),
            sprite_mode_ok(r.0.mode),
    {
        if state.delay > 0 {
            return (SpriteFetcherState { delay: state.delay - 1, ..state }, false);
        }
        if self.dot % 2 == 0 {
            return (state, false);
        }
        match state.mode {
            SpriteFetcherMode::FetchTile => {
                let line_obj_distance = (self.line + OBJ_Y_OFFSET) - state.obj.pos_y;
                let y_flip = state.obj.flags & OBJ_Y_FLIP != 0;
                let row_addr: u16 = if self.lcdc & OBJ_SIZE != 0 {
                    // if the scanline is drawing the bottom tile, inverted if y flip is set
                    let is_bottom_tile = (line_obj_distance >= 8) != y_flip;
                    let tile_index = if is_bottom_tile {
                        state.obj.tile_index | 0x01
                    } else {
                        state.obj.tile_index & 0xFE
                    };
                    let mut tile_row = line_obj_distance % 8;
                    if y_flip {
                        tile_row = 7 - tile_row;
                    }
                    (tile_index as u16) * (TILE_LEN as u16) + (tile_row as u16) * 2
                } else {
                    let tile_row = if y_flip {
                        7 - line_obj_distance
                    } else {
                        line_obj_distance
                    };
                    (state.obj.tile_index as u16) * (TILE_LEN as u16) + (tile_row as u16) * 2
                };
                (SpriteFetcherState { mode: SpriteFetcherMode::FetchLow { row_addr }, ..state }, false)
            },
            SpriteFetcherMode::FetchLow { row_addr } => {
                let low = self.vram[row_addr as usize];
                (SpriteFetcherState { mode: SpriteFetcherMode::FetchHigh { row_addr, low }, ..state }, false)
            },
            SpriteFetcherMode::FetchHigh { row_addr, low } => {
                let high = self.vram[(row_addr as usize) + 1];
                let ghost row = sprite_row(state.obj, low, high, self.obp0, self.obp1);
                let ghost old_fifo = self.obj_fifo@;
                let x_flip = state.obj.flags & OBJ_X_FLIP != 0;
                let palette = if state.obj.flags & OBJ_DMG_PALETTE != 0 {
                    self.obp1
                } else {
                    self.obp0
                };
                let mut j: usize = 0;
                while j < 8
                    invariant
                        j <= 8,
                        row == sprite_row(state.obj, low, high, self.obp0, self.obp1),
                        x_flip == (state.obj.flags & OBJ_X_FLIP != 0),
                        palette == (if state.obj.flags & OBJ_DMG_PALETTE != 0 { self.obp1 } else { self.obp0 }),
                        self.obj_fifo@ == merge_prefix(old_fifo, row, j as int),
                        self.fb@ == old(self)@.fb,
                        self.vram@ == old(self)@.vram,
                        self.oam@ == old(self)@.oam,
                        self.object_buffer@ == old(self)@.object_buffer,
                        self.bg_fifo@ == old(self)@.bg_fifo,
                        self.dot == old(self)@.dot,
                        self.mode == old(self)@.mode,
                        self.lcdc == old(self)@.lcdc,
                        self.scroll_x == old(self)@.scroll_x,
                        self.scroll_y == old(self)@.scroll_y,
                        self.wx == old(self)@.wx,
                        self.wy == old(self)@.wy,
                        self.bgp == old(self)@.bgp,
                        self.obp0 == old(self)@.obp0,
                        self.obp1 == old(self)@.obp1,
                        self.lyc == old(self)@.lyc,
                        self.stat == old(self)@.stat,
                        self.stat_line == old(self)@.stat_line,
                        self.line == old(self)@.line,
                        self.window_line == old(self)@.window_line,
                        self.wy_condition == old(self)@.wy_condition,
                        self.tile_x == old(self)@.tile_x,
                        self.screen_x == old(self)@.screen_x,
                        self.frame_ready == old(self)@.frame_ready,
                    decreases 8 - j,
                {
                    // if x flip is set, read the bits in reverse order
                    let bit: u8 = if x_flip {
                        j as u8
                    } else {
                        7 - j as u8
                    };
                    let low_bit = (low >> bit) & 0x01;
                    let high_bit = (high >> bit) & 0x01;
                    let pixel_bits = low_bit | (high_bit << 1u8);
                    assert(pixel_bits < 4) by (bit_vector)
                        requires
                            pixel_bits == ((low >> bit) & 0x01) | (((high >> bit) & 0x01) << 1u8),
                    ;
                    let pixel = Pixel::from_bits(pixel_bits);
                    let sprite_pixel = SpritePixel {
                        pixel,
                        bg_over_obj: state.obj.flags & OBJ_PRIORITY != 0,
                        palette,
                    };
                    assert(sprite_pixel == row[j as int]);
                    let ghost before = self.obj_fifo@;
                    if j < self.obj_fifo.len() {
                        if self.obj_fifo[j].pixel == Pixel::Zero {
                            let _ = self.obj_fifo.remove(j);
                            self.obj_fifo.insert(j, sprite_pixel);
                            assert(self.obj_fifo@ =~= before.update(j as int, sprite_pixel));
                        }
                    } else {
                        self.obj_fifo.push_back(sprite_pixel);
                    }
                    assert(self.obj_fifo@ =~= merge_prefix(old_fifo, row, j + 1));
                    j = j + 1;
                }
                assert(merge_prefix(old_fifo, row, 8) =~= merge_sprite_row(old_fifo, row));
                (state, true)
            },
        }
    }

    fn step_shifter(&mut self, discard_counter: u8, sprite_fetcher: Option<SpriteFetcherState>) -> (r: (
        u8,
        Option<SpriteFetcherState>,
    ))
        requires
            old(self)@.wf(),
            old(self)@.mode is Mode3,
        ensures
            (final(self)@, r.0, r.1) == old(self)@.shifter_step(discard_counter, sprite_fetcher),
            final(self)@.wf(),
    {
        let bg_pixel = match self.bg_fifo.pop_front() {
            Some(p) => p,
            None => return (discard_counter, sprite_fetcher),
        };
        if discard_counter > 0 {
            return (discard_counter - 1, sprite_fetcher);
        }
        // search for sprites
        let ghost buf = self.object_buffer@;
        let mut selected_object_i: Option<usize> = None;
        if self.lcdc & OBJ_ENABLE != 0 {
            let mut i: usize = 0;
            while i < self.object_buffer.len()
                invariant_except_break
                    i <= self.object_buffer@.len(),
                    buf == self.object_buffer@,
                    find_object(buf, self.screen_x, 0) == find_object(buf, self.screen_x, i as int),
                    selected_object_i is None,
                ensures
                    buf == self.object_buffer@,
                    selected_object_i matches Some(k) ==> find_object(buf, self.screen_x, 0) == Some(k as int),
                    selected_object_i is None ==> find_object(buf, self.screen_x, 0) is None,
                decreases self.object_buffer@.len() - i,
            {
                if self.object_buffer[i].pos_x.wrapping_sub(8) == self.screen_x {
                    selected_object_i = Some(i);
                    break;
                }
                i = i + 1;
            }
        }
        proof {
            lemma_find_object(buf, self.screen_x, 0);
        }
        if let Some(i) = selected_object_i {
            self.bg_fifo.push_front(bg_pixel);
            let m = self.screen_x.wrapping_add(self.scroll_x) % 8;
            let mut alignment_penalty: u8 = if m < 5 {
                5 - m
            } else {
                0
            };
            if alignment_penalty % 2 == 1 {
                // preserve the timing gates on odd dots
                alignment_penalty = alignment_penalty + 1;
            }
            // remove so it can't be drawn during this scanline again
            let obj = self.object_buffer.remove(i);
            assert(self.bg_fifo@ =~= old(self)@.bg_fifo);
            assert(6 + alignment_penalty == sprite_delay(self.screen_x, self.scroll_x));
            assert(find_object(buf, self.screen_x, 0) == Some(i as int));
            assert(obj == buf[i as int]);
            assert(self@ == PpuView { object_buffer: buf.remove(i as int), ..old(self)@ });
            return (
                discard_counter,
                Some(
                    SpriteFetcherState { delay: 6 + alignment_penalty, mode: SpriteFetcherMode::FetchTile, obj },
                ),
            );
        }
        let sprite_pixel = match self.obj_fifo.pop_front() {
            Some(p) => p,
            None => SpritePixel { pixel: Pixel::Zero, bg_over_obj: false, palette: self.obp0 },
        };
        let color = self.composite_pixel(bg_pixel, sprite_pixel).to_bgra();
        let idx = (self.screen_x as usize) + (self.line as usize) * SCREEN_WIDTH;
        self.fb.set(idx, color);
        self.screen_x = self.screen_x + 1;
        if self.screen_x == SCREEN_WIDTH as u8 {
            self.mode = State::Mode0;
        }
        (discard_counter, sprite_fetcher)
    }
}

impl Ppu {
    fn step_mode3(&mut self, state: Mode3State)
        requires
            old(self)@.wf(),
            old(self)@.mode == State::Mode3(state),
            old(self)@.mode3_ok(state),
        ensures
            final(self)@ == old(self)@.mode3_step(state),
            final(self)@.wf(),
            final(self)@.dot == old(self)@.dot,
            final(self)@.line == old(self)@.line,
            final(self)@.mode != State::Mode2,
    {
        reveal(PpuView::mode3_step);
        match state.sprite_fetcher {
            Some(sf) => {
                let (_sf, done) = self.step_sprite_fetcher(sf);
                if done {
                    self.mode = State::Mode3(Mode3State { sprite_fetcher: None, ..state });
                }
            },
            None => {
                let (fetcher_state, fetcher_delay) = self.step_fetcher(
                    state.fetcher_state,
                    state.fetcher_delay,
                    state.window_fetch,
                );
                let window_reached = match self.wy_condition {
                    Some(true) => true,
                    _ => false,
                };
                if window_reached && self.lcdc & WINDOW_ENABLE != 0 && self.screen_x + 7 == self.wx
                    && !state.window_fetch {
                    self.bg_fifo.clear();
                    self.tile_x = 0;
                    self.mode = State::Mode3(
                        Mode3State {
                            fetcher_state: FetcherState::FetchId,
                            window_fetch: true,
                            fetcher_delay: fetcher_delay + 6,
                            discard_counter: state.discard_counter,
                            sprite_fetcher: None,
                        },
                    );
                } else {
                    // shifter will not do anything if the above branch is run because bg_fifo is
                    // cleared
                    let (discard_counter, sprite_fetcher) = self.step_shifter(state.discard_counter, None);
                    // step_shifter might have set the mode to Mode0
                    match self.mode {
                        State::Mode0 => {},
                        _ => {
                            self.mode = State::Mode3(
                                Mode3State {
                                    fetcher_state,
                                    window_fetch: state.window_fetch,
                                    fetcher_delay,
                                    discard_counter,
                                    sprite_fetcher,
                                },
                            );
                        },
                    }
                }
            },
        }
    }

    fn step_mode2(&mut self)
        requires
            old(self)@.wf(),
            old(self)@.line < 144,
            old(self)@.mode == State::Mode2,
        ensures
            final(self)@ == old(self)@.mode2_step(),
            final(self)@.wf(),
            final(self)@.dot == old(self)@.dot,
            final(self)@.line == old(self)@.line,
            final(self)@.mode == State::Mode2 ==> old(self)@.dot < 79,
    {
        reveal(PpuView::mode2_step);
        if self.dot == 0 {
            self.object_buffer.clear();
            self.bg_fifo.clear();
            self.obj_fifo.clear();
        }
        if self.wy_condition.is_none() {
            self.wy_condition = Some(self.wy == self.line);
        }
        // 80 dots, 40 entries, 2 dots per entry
        // trigger only on odd numbers
        if self.dot % 2 == 0 {
            return ;
        }
        // 79 dots have been completed, so this is the 80th
        if self.dot == 79 {
            self.mode = State::Mode3(
                Mode3State {
                    // 4 dot penalty on first fetch
                    fetcher_delay: 4,
                    window_fetch: false,
                    fetcher_state: FetcherState::FetchId,
                    discard_counter: self.scroll_x % (TILE_WIDTH as u8),
                    sprite_fetcher: None,
                },
            );
            self.screen_x = 0;
            sort_object_buffer(&mut self.object_buffer);
        }
        if self.object_buffer.len() >= 10 {
            return ;
        }
        // dot 1 => idx 0, dot 3 => idx 1, ..., dot 79 => idx 39
        let entry_idx = (self.dot / 2) as usize;
        let entry = ObjectAttribute {
            pos_y: self.oam[4 * entry_idx],
            pos_x: self.oam[4 * entry_idx + 1],
            tile_index: self.oam[4 * entry_idx + 2],
            flags: self.oam[4 * entry_idx + 3],
        };
        // line needs to be in this range for sprite to be visible
        let bottom = entry.pos_y.saturating_add(self.sprite_height());
        let y = self.line + OBJ_Y_OFFSET;
        if entry.pos_y <= y && y < bottom {
            self.object_buffer.push(entry);
        }
    }

    /// One dot of the picture processing unit; the interrupts it raises are appended
    /// to `int_queue`.
    pub fn step(&mut self, int_queue: &mut VecDeque<Interrupt>)
        requires
            old(self)@.wf(),
            old(self)@.step_ok(),
        ensures
            final(self)@ == old(self)@.step().0,
            final(int_queue)@ == old(int_queue)@ + old(self)@.step().1,
            final(self)@.wf(),
    {
        if self.lcdc & LCD_ENABLE == 0 {
            assert(int_queue@ =~= int_queue@ + Seq::<Interrupt>::empty());
            return ;
        }
        let ghost q0 = int_queue@;
        let new_stat_line = self.compute_stat_line();
        // rising edge detection
        if new_stat_line && new_stat_line != self.stat_line {
            int_queue.push_back(Interrupt::Stat);
        }
        self.stat_line = new_stat_line;
        let ghost q1 = int_queue@;

        if self.line >= 144 {
            // wait for 10 lines (4560 dots)
            // fire vblank interrupt if we just entered vblank
            if self.dot == 0 {
                int_queue.push_back(Interrupt::VBlank);
            }
            // we can't set dot=0 since the conditional above relies on it corresponding to the
            // start of vblank, so we use modular arithmetic to check for the line ending instead
            if (self.dot % 456) == 455 {
                self.line = self.line + 1;
            }
            // 4559 dots have been completed, so this is the 4560th
            if self.dot == 4559 {
                // restart the process
                self.dot = 0;
                self.tile_x = 0;
                self.screen_x = 0;
                self.line = 0;
                self.window_line = 0;
                self.wy_condition = None;
            } else {
                self.dot = self.dot + 1;
            }
            assert(int_queue@ =~= q0 + old(self)@.step().1);
            return ;
        }
        match self.mode {
            State::Mode2 => self.step_mode2(),
            State::Mode3(state) => self.step_mode3(state),
            State::Mode0 => {
                // 455 dots have been completed, so this is the 456th
                if self.dot == 455 {
                    self.frame_ready = true;
                    self.line = self.line + 1;
                    if let Some(true) = self.wy_condition {
                        self.window_line = self.window_line + 1;
                    }
                    self.dot = 0;
                    self.tile_x = 0;
                    self.screen_x = 0;
                    if let Some(false) = self.wy_condition {
                        self.wy_condition = None;
                    }
                    self.mode = State::Mode2;
                }
            },
        }
        self.dot = self.dot + 1;
        assert(int_queue@ =~= q0 + old(self)@.step().1);
    }
}

impl Ppu {
    /// Whether the next dot proceeds without overflow (see `PpuView::step_ok`).
    pub fn can_step(&self) -> (r: bool)
        ensures
            r == self@.step_ok(),
    {
        if self.lcdc & LCD_ENABLE == 0 || self.line >= 144 {
            return true;
        }
        if self.dot == u32::MAX {
            return false;
        }
        match self.mode {
            State::Mode3(st) => match st.sprite_fetcher {
                Some(sf) => {
                    if sf.delay > 0 || self.dot % 2 == 0 {
                        return true;
                    }
                    match sf.mode {
                        SpriteFetcherMode::FetchTile => {
                            let y = self.line as u16 + 16;
                            (sf.obj.pos_y as u16) <= y && (self.lcdc & OBJ_SIZE != 0 || sf.obj.flags & OBJ_Y_FLIP
                                == 0 || y - (sf.obj.pos_y as u16) <= 7)
                        },
                        _ => true,
                    }
                },
                None => {
                    if st.fetcher_delay > 0 || self.dot % 2 == 0 {
                        return true;
                    }
                    match st.fetcher_state {
                        FetcherState::FetchId => self.tile_x < 255,
                        _ => true,
                    }
                },
            },
            _ => true,
        }
    }
}

impl PpuView {
    /// The state after `n` dots.
    pub open spec fn steps(self, n: nat) -> PpuView
        decreases n,
    {
        if n == 0 {
            self
        } else {
            self.steps((n - 1) as nat).step().0
        }
    }
}

/// Vertical blank: the dot counter runs on, LY advances every 456 dots through the
/// lines 144 to 153, and the dot after dot 4559 restarts the frame at line 0, dot 0,
/// in mode 2.
pub proof fn lemma_vblank(p: PpuView, k: nat)
    requires
        p.wf(),
        p.lcd_on(),
        p.line >= 144,
        p.dot + k <= 4559,
    ensures
        p.steps(k).dot == p.dot + k,
        p.steps(k).line == 144 + (p.dot + k) / 456,
        p.steps(k).lcdc == p.lcdc,
        p.steps(k).mode == State::Mode2,
        p.dot + k == 4559 ==> {
            let q = p.steps(k).step().0;
            q.line == 0 && q.dot == 0 && q.mode == State::Mode2
        },
    decreases k,
{
    if k > 0 {
        let m = (k - 1) as nat;
        lemma_vblank(p, m);
        let d = p.dot + m;
        if d % 456 == 455 {
            assert((d + 1) / 456 == d / 456 + 1);
        } else {
            assert((d + 1) / 456 == d / 456);
        }
    }
}


proof fn lemma_row_bits_small(low: u8, high: u8, k: u8)
    by (bit_vector)
    ensures
        ((low >> k) & 0x01) | (((high >> k) & 0x01) << 1u8) < 4,
{
}

/// The background fetcher's push: with room in the FIFO (at most eight pixels), on
/// an odd dot with no delay left, the tile row fetched as `low` and `high` is
/// appended left to right, the j-th pixel pushed having colour index bit `7 - j` of
/// `low` plus twice bit `7 - j` of `high`; the pixels already queued stay in front,
/// and the fetcher starts over with the next tile id.
pub proof fn lemma_fetcher_push(p: PpuView, low: u8, high: u8, window_fetch: bool)
    requires
        p.dot % 2 == 1,
        p.bg_fifo.len() <= 8,
    ensures
        ({
            let (q, st, d) = p.fetcher_step(FetcherState::Push { low, high }, 0, window_fetch);
            &&& q == (PpuView { bg_fifo: q.bg_fifo, ..p })
            &&& st == FetcherState::FetchId
            &&& d == 0
            &&& q.bg_fifo.len() == p.bg_fifo.len() + 8
            &&& forall|j: int| 0 <= j < p.bg_fifo.len() ==> #[trigger] q.bg_fifo[j] == p.bg_fifo[j]
            &&& forall|j: int|
                0 <= j < 8 ==> pixel_index(#[trigger] q.bg_fifo[p.bg_fifo.len() + j]) == ((low >> ((7 - j) as u8))
                    & 0x01) | (((high >> ((7 - j) as u8)) & 0x01) << 1u8)
        }),
{
    let (q, st, d) = p.fetcher_step(FetcherState::Push { low, high }, 0, window_fetch);
    assert(q.bg_fifo == p.bg_fifo + tile_row(low, high));
    assert forall|j: int| 0 <= j < 8 implies pixel_index(#[trigger] q.bg_fifo[p.bg_fifo.len() + j]) == ((low >> ((7
        - j) as u8)) & 0x01) | (((high >> ((7 - j) as u8)) & 0x01) << 1u8) by {
        lemma_row_bits_small(low, high, (7 - j) as u8);
        assert(q.bg_fifo[p.bg_fifo.len() + j] == tile_row(low, high)[j]);
    }
}


/// An object's tile row, as the object fetcher mixes it in: eight pixels left to
/// right, the j-th taken from bit `7 - j` of `low` and `high` (bit `j` when the
/// object is flipped horizontally, flag bit 2), drawn behind a non-zero background
/// when flag bit 0 is set, and with OBP1 when flag bit 3 is set, OBP0 otherwise.
pub proof fn lemma_sprite_row(obj: ObjectAttribute, low: u8, high: u8, obp0: u8, obp1: u8)
    ensures
        sprite_row(obj, low, high, obp0, obp1).len() == 8,
        forall|j: int|
            0 <= j < 8 ==> {
                let k: u8 = if obj.flags & 0x04 != 0 {
                    j as u8
                } else {
                    (7 - j) as u8
                };
                let px = #[trigger] sprite_row(obj, low, high, obp0, obp1)[j];
                &&& pixel_index(px.pixel) == ((low >> k) & 0x01) | (((high >> k) & 0x01) << 1u8)
                &&& px.bg_over_obj == (obj.flags & 0x01 != 0)
                &&& px.palette == (if obj.flags & 0x08 != 0 {
                    obp1
                } else {
                    obp0
                })
            },
{
    assert forall|j: int| 0 <= j < 8 implies {
        let k: u8 = if obj.flags & 0x04 != 0 {
            j as u8
        } else {
            (7 - j) as u8
        };
        let px = #[trigger] sprite_row(obj, low, high, obp0, obp1)[j];
        &&& pixel_index(px.pixel) == ((low >> k) & 0x01) | (((high >> k) & 0x01) << 1u8)
        &&& px.bg_over_obj == (obj.flags & 0x01 != 0)
        &&& px.palette == (if obj.flags & 0x08 != 0 {
            obp1
        } else {
            obp0
        })
    } by {
        let k: u8 = if obj.flags & 0x04 != 0 {
            j as u8
        } else {
            (7 - j) as u8
        };
        lemma_row_bits_small(low, high, k);
    }
}

} // verus!
