//! The picture processor: a per-dot state machine that scans OAM, drives
//! the background and sprite pixel fetchers through a shared FIFO pair, and
//! produces a 160x144 frame of 2-bit color indices. One scanline is 456
//! dots; a frame is 154 scanlines = 70,224 dots = 17,556 machine cycles.
use vstd::prelude::*;

verus! {

/// LCDC bit positions.
pub const LCD_ENABLED: u8 = 7;

pub const WINDOW_TILE_MAP: u8 = 6;

pub const WINDOW_ENABLED: u8 = 5;

pub const TILE_ADDRESSING: u8 = 4;

pub const BG_TILE_MAP: u8 = 3;

pub const SPRITE_SIZE: u8 = 2;

pub const SPRITES_ENABLED: u8 = 1;

pub const BG_OR_WINDOW_ENABLED: u8 = 0;

/// The PPU mode held in STAT bits 0-1.
#[derive(Clone, Copy, PartialEq, Eq, Structural, Debug)]
pub enum Mode {
    OAMSCAN,
    DRAW,
    HBLANK,
    VBLANK,
}

/// One OAM entry selected for the current scanline.
#[derive(Clone, Copy, PartialEq, Eq, Structural, Debug)]
pub struct Object {
    pub y_pos: u8,
    pub x_pos: u8,
    pub tile_number: u8,
    pub sprite_flags: u8,
}

/// One decoded sprite pixel awaiting mixing.
#[derive(Clone, Copy, PartialEq, Eq, Structural, Debug)]
pub struct ObjectPixel {
    pub color_id: u8,
    pub flags: u8,
    pub x_pos: u8,
}

/// The per-scanline fetcher state, reset at each H-blank.
#[derive(Clone, Copy, PartialEq, Eq, Structural, Debug)]
pub struct FetchState {
    pub is_fetching_window: bool,
    pub fetcher_x: u16,
    pub scanline_x: u8,
    pub tile_number: u8,
    pub tile_data_low: u8,
    pub tile_data_high: u8,
    pub current_sprite: Option<Object>,
    pub new_scanline: bool,
    pub oam_ptr: u8,
    pub bg_fetcher_step: u8,
    pub sprite_fetcher_step: u8,
}

impl FetchState {
    /// The state at the start of a scanline.
    pub open spec fn spec_init() -> FetchState {
        FetchState {
            is_fetching_window: false,
            fetcher_x: 0,
            scanline_x: 0,
            tile_number: 0,
            tile_data_low: 0,
            tile_data_high: 0,
            current_sprite: None,
            new_scanline: true,
            oam_ptr: 0,
            bg_fetcher_step: 0,
            sprite_fetcher_step: 0,
        }
    }

    fn init() -> (r: FetchState)
        ensures
            r == Self::spec_init(),
    {
        FetchState {
            is_fetching_window: false,
            fetcher_x: 0,
            scanline_x: 0,
            tile_number: 0,
            tile_data_low: 0,
            tile_data_high: 0,
            current_sprite: None,
            new_scanline: true,
            oam_ptr: 0,
            bg_fetcher_step: 0,
            sprite_fetcher_step: 0,
        }
    }
}

/// The mathematical state of the PPU: every buffer as a sequence.
#[verifier::ext_equal]
pub struct PpuView {
    pub lcd: Seq<u8>,
    pub vram: Seq<u8>,
    pub oam: Seq<u8>,
    pub ly: u8,
    pub lyc: u8,
    pub control: u8,
    pub stat: u8,
    pub scy: u8,
    pub scx: u8,
    pub wy: u8,
    pub wx: u8,
    pub bgp: u8,
    pub obp0: u8,
    pub obp1: u8,
    pub vblank_irq_triggered: bool,
    pub rendered_frame: bool,
    pub scanline_timeline: u16,
    pub vblank_timeline: u16,
    pub window_in_frame: bool,
    pub window_line_counter: u16,
    pub rendered_window_on_scanline: bool,
    pub fs: FetchState,
    pub sprite_fifo: Seq<ObjectPixel>,
    pub background_fifo: Seq<u8>,
    pub sprite_buffer: Seq<Object>,
}

/// The picture processor.
pub struct PPU {
    pub lcd: Vec<u8>,
    pub vram: Vec<u8>,
    pub oam: Vec<u8>,
    pub ly: u8,
    pub lyc: u8,
    pub control: u8,
    pub stat: u8,
    pub scy: u8,
    pub scx: u8,
    pub wy: u8,
    pub wx: u8,
    pub bgp: u8,
    pub obp0: u8,
    pub obp1: u8,
    pub vblank_irq_triggered: bool,
    pub rendered_frame: bool,
    pub scanline_timeline: u16,
    pub vblank_timeline: u16,
    pub window_in_frame: bool,
    pub window_line_counter: u16,
    pub rendered_window_on_scanline: bool,
    pub fs: FetchState,
    pub sprite_fifo: Vec<ObjectPixel>,
    pub background_fifo: Vec<u8>,
    pub sprite_buffer: Vec<Object>,
}

impl View for PPU {
    type V = PpuView;

    open spec fn view(&self) -> PpuView {
        PpuView {
            lcd: self.lcd@,
            vram: self.vram@,
            oam: self.oam@,
            ly: self.ly,
            lyc: self.lyc,
            control: self.control,
            stat: self.stat,
            scy: self.scy,
            scx: self.scx,
            wy: self.wy,
            wx: self.wx,
            bgp: self.bgp,
            obp0: self.obp0,
            obp1: self.obp1,
            vblank_irq_triggered: self.vblank_irq_triggered,
            rendered_frame: self.rendered_frame,
            scanline_timeline: self.scanline_timeline,
            vblank_timeline: self.vblank_timeline,
            window_in_frame: self.window_in_frame,
            window_line_counter: self.window_line_counter,
            rendered_window_on_scanline: self.rendered_window_on_scanline,
            fs: self.fs,
            sprite_fifo: self.sprite_fifo@,
            background_fifo: self.background_fifo@,
            sprite_buffer: self.sprite_buffer@,
        }
    }
}

impl PpuView {
    /// The mode encoded in STAT bits 0-1.
    pub open spec fn spec_mode(self) -> Mode {
        match self.stat & 0x3 {
            0 => Mode::HBLANK,
            1 => Mode::VBLANK,
            2 => Mode::OAMSCAN,
            _ => Mode::DRAW,
        }
    }

    /// The STAT value after switching to `mode`, keeping all other bits.
    pub open spec fn spec_with_mode(self, mode: Mode) -> PpuView {
        let bits: u8 = match mode {
            Mode::HBLANK => 0,
            Mode::VBLANK => 1,
            Mode::OAMSCAN => 2,
            Mode::DRAW => 3,
        };
        PpuView { stat: (self.stat & 0xFC) | bits, ..self }
    }

    /// Well-formedness of the PPU state at a tick boundary: the core
    /// clauses plus the timing relations between mode, LY and the dot
    /// counters, and the mode-3 drawing guard.
    pub open spec fn wf(self) -> bool {
        &&& self.wf_core()
        &&& (self.spec_mode() != Mode::VBLANK ==> self.ly <= 143)
        &&& self.scanline_timeline <= 454
        &&& self.scanline_timeline % 2 == 0
        &&& self.vblank_timeline < 4560
        &&& self.vblank_timeline % 2 == 0
        &&& (self.spec_mode() != Mode::VBLANK ==> self.vblank_timeline == 0)
        &&& (self.spec_mode() == Mode::VBLANK ==> self.ly == 144 + self.vblank_timeline / 456)
        &&& (self.spec_mode() != Mode::VBLANK ==> self.window_line_counter <= self.ly)
    }

    /// The core well-formedness clauses: buffer lengths, counter bounds,
    /// the ten-sprite-per-scanline cap, and 2-bit color identifiers. The
    /// fetchers preserve these mid-tick; the full `wf` is re-established
    /// at the end of every tick.
    pub open spec fn wf_core(self) -> bool {
        &&& self.lcd.len() == 23040
        &&& self.vram.len() == 0x2000
        &&& self.oam.len() == 160
        &&& self.ly <= 153
        &&& self.window_line_counter <= 144
        &&& self.sprite_buffer.len() <= 10
        &&& self.background_fifo.len() <= 16
        &&& self.sprite_fifo.len() <= 8
        &&& self.fs.oam_ptr <= 39
        &&& self.fs.scanline_x <= 160
        &&& (forall|i: int| 0 <= i < self.background_fifo.len() ==> self.background_fifo[i] <= 3)
        &&& (forall|i: int|
            0 <= i < self.sprite_fifo.len() ==> self.sprite_fifo[i].color_id <= 3)
        &&& (forall|i: int| 0 <= i < self.lcd.len() ==> self.lcd[i] <= 3)
    }

    /// The value of one PPU register; 0xFF46 (the DMA trigger) reads zero.
    pub open spec fn spec_read_register(self, addr: u16) -> u8 {
        match addr {
            0xFF40 => self.control,
            0xFF41 => self.stat,
            0xFF42 => self.scy,
            0xFF43 => self.scx,
            0xFF44 => self.ly,
            0xFF45 => self.lyc,
            0xFF46 => 0x00,
            0xFF47 => self.bgp,
            0xFF48 => self.obp0,
            0xFF49 => self.obp1,
            0xFF4A => self.wy,
            _ => self.wx,
        }
    }

    /// The PPU after one register write. Disabling the LCD forces mode 0
    /// and LY 0; STAT writes cannot touch the read-only low three bits;
    /// LY writes are ignored.
    #[verifier::opaque]
    pub open spec fn spec_write_register(self, addr: u16, val: u8) -> PpuView {
        match addr {
            0xFF40 => if (val >> LCD_ENABLED) & 0x1 == 0 {
                PpuView {
                    control: val,
                    stat: self.stat & 0xFC,
                    ly: 0,
                    scanline_timeline: 0,
                    vblank_timeline: 0,
                    window_line_counter: 0,
                    ..self
                }
            } else {
                PpuView { control: val, ..self }
            },
            0xFF41 => PpuView { stat: (self.stat & 0x07) | (val & 0xF8), ..self },
            0xFF42 => PpuView { scy: val, ..self },
            0xFF43 => PpuView { scx: val, ..self },
            0xFF44 => self,
            0xFF45 => PpuView { lyc: val, ..self },
            0xFF46 => self,
            0xFF47 => PpuView { bgp: val, ..self },
            0xFF48 => PpuView { obp0: val, ..self },
            0xFF49 => PpuView { obp1: val, ..self },
            0xFF4A => PpuView { wy: val, ..self },
            _ => PpuView { wx: val, ..self },
        }
    }
}

/// Whether a buffered object's X position has come within reach of pixel
/// `sx`: objects become fetchable once `x_pos <= sx + 8`.
pub open spec fn spec_eligible(o: Object, sx: u8) -> bool {
    o.x_pos <= sx + 8
}

/// The index of the sprite to fetch next among `s[i..]`: the eligible
/// object with the smallest X position, the earliest-buffered one on ties.
pub open spec fn spec_best_sprite(s: Seq<Object>, sx: u8, i: int) -> Option<int>
    decreases s.len() - i,
{
    if i < 0 || i >= s.len() {
        None
    } else {
        let rest = spec_best_sprite(s, sx, i + 1);
        if spec_eligible(s[i], sx) {
            match rest {
                None => Some(i),
                Some(j) => if s[i].x_pos <= s[j].x_pos {
                    Some(i)
                } else {
                    Some(j)
                },
            }
        } else {
            rest
        }
    }
}

/// A found best-sprite index lies inside the buffer.
proof fn lemma_best_sprite_in_range(s: Seq<Object>, sx: u8, i: int)
    ensures
        match spec_best_sprite(s, sx, i) {
            Some(j) => i <= j < s.len(),
            None => true,
        },
    decreases s.len() - i,
{
    if 0 <= i < s.len() {
        lemma_best_sprite_in_range(s, sx, i + 1);
    }
}

fn best_sprite_from(buf: &Vec<Object>, sx: u8, i: usize) -> (r: Option<usize>)
    requires
        sx <= 160,
        i <= buf@.len(),
        buf@.len() <= 10,
    ensures
        match r {
            Some(k) => spec_best_sprite(buf@, sx, i as int) == Some(k as int) && k < buf@.len(),
            None => spec_best_sprite(buf@, sx, i as int) is None,
        },
    decreases buf@.len() - i,
{
    if i >= buf.len() {
        None
    } else {
        proof {
            lemma_best_sprite_in_range(buf@, sx, i + 1);
        }
        let rest = best_sprite_from(buf, sx, i + 1);
        if buf[i].x_pos <= sx + 8 {
            match rest {
                None => Some(i),
                Some(j) => if buf[i].x_pos <= buf[j].x_pos {
                    Some(i)
                } else {
                    Some(j)
                },
            }
        } else {
            rest
        }
    }
}

/// Sprite height in rows: 16 in 8x16 mode (LCDC bit 2), else 8.
pub open spec fn spec_sprite_height(control: u8) -> u16 {
    if (control >> SPRITE_SIZE) & 0x1 == 1 {
        16
    } else {
        8
    }
}

/// The byte offset of the sprite row to fetch for scanline `ly`, doubled
/// because each row is two planes; vertical flip inverts the row.
pub open spec fn spec_vertical_offset(ly: u8, sprite: Object, height: u16) -> u16 {
    let base = ((ly as u16).wrapping_sub((sprite.y_pos as u16).wrapping_sub(16)) % height)
        .wrapping_mul(2);
    if (sprite.sprite_flags >> 6) & 0x1 == 1 {
        (((height - 1) * 2) - base) as u16
    } else {
        base
    }
}

/// The 2-bit color identifier of bit `pos` of a two-plane tile row: the
/// high plane supplies the high bit.
pub open spec fn spec_color_id(low: u8, high: u8, pos: u8) -> u8 {
    (((high >> pos) & 0x1) << 1) | ((low >> pos) & 0x1)
}

/// A color identifier is two bits.
pub proof fn lemma_color_id_bound(low: u8, high: u8, pos: u8)
    ensures
        spec_color_id(low, high, pos) <= 3,
{
    let r = spec_color_id(low, high, pos);
    assert(((((high >> pos) & 0x1) << 1) | ((low >> pos) & 0x1)) <= 3) by (bit_vector);
}

fn color_id(low: u8, high: u8, pos: u8) -> (r: u8)
    requires
        pos < 8,
    ensures
        r == spec_color_id(low, high, pos),
        r <= 3,
{
    proof {
        lemma_color_id_bound(low, high, pos);
    }
    (((high >> pos) & 0x1) << 1) | ((low >> pos) & 0x1)
}

/// A palette lookup: the 2-bit color value selected by a 2-bit identifier.
pub open spec fn spec_palette_color(palette: u8, id: u8) -> u8 {
    (palette >> (2 * id)) & 0x3
}

/// The sprite-FIFO mixing pass of one fetched sprite row: pixel `i`
/// replaces an existing transparent entry or is appended past the end;
/// horizontal flip reads the planes from bit `i` instead of bit `7-i`.
#[verifier::opaque]
pub open spec fn spec_mix(
    fifo: Seq<ObjectPixel>,
    low: u8,
    high: u8,
    flags: u8,
    x_pos: u8,
    i: int,
) -> Seq<ObjectPixel>
    decreases 8 - i,
{
    if i < 0 || i >= 8 {
        fifo
    } else {
        let pos: u8 = if (flags >> 5) & 0x1 == 1 {
            i as u8
        } else {
            (7 - i) as u8
        };
        let px = ObjectPixel { color_id: spec_color_id(low, high, pos), flags: flags, x_pos: x_pos };
        let fifo2 = if i + 1 <= fifo.len() {
            if fifo[i].color_id == 0 && px.color_id != 0 {
                fifo.update(i, px)
            } else {
                fifo
            }
        } else {
            fifo.push(px)
        };
        spec_mix(fifo2, low, high, flags, x_pos, i + 1)
    }
}

/// The eight color identifiers of one background tile row, leftmost pixel
/// (bit 7) first.
#[verifier::opaque]
pub open spec fn spec_bg_pixels(low: u8, high: u8) -> Seq<u8> {
    seq![
        spec_color_id(low, high, 7),
        spec_color_id(low, high, 6),
        spec_color_id(low, high, 5),
        spec_color_id(low, high, 4),
        spec_color_id(low, high, 3),
        spec_color_id(low, high, 2),
        spec_color_id(low, high, 1),
        spec_color_id(low, high, 0),
    ]
}

/// The VRAM address (relative to 0x8000) of a tile's data per the LCDC
/// tile-addressing bit: 0x8000 + index*16 unsigned when set, 0x9000 +
/// signed-index*16 when clear.
pub open spec fn spec_bg_tile_base(control: u8, tile_number: u8) -> u16 {
    if (control >> TILE_ADDRESSING) & 0x1 == 1 {
        (0x8000 + (tile_number as u16) * 16) as u16
    } else if tile_number < 128 {
        (0x9000 + (tile_number as u16) * 16) as u16
    } else {
        (0x8800 + ((tile_number - 128) as u16) * 16) as u16
    }
}

/// A zero-filled byte buffer of the given length.
pub fn zero_bytes(n: usize) -> (r: Vec<u8>)
    ensures
        r@.len() == n,
        forall|i: int| 0 <= i < n ==> r@[i] == 0,
{
    let mut r: Vec<u8> = Vec::new();
    let mut i: usize = 0;
    while i < n
        invariant
            i <= n,
            r@.len() == i,
            forall|k: int| 0 <= k < i ==> r@[k] == 0,
        decreases n - i,
    {
        r.push(0);
        i = i + 1;
    }
    r
}

/// A palette lookup, proved to stay within the four shades.
fn palette_color(palette: u8, id: u8) -> (r: u8)
    requires
        id <= 3,
    ensures
        r == spec_palette_color(palette, id),
        r <= 3,
{
    let r = (palette >> (2 * id)) & 0x3;
    proof {
        assert((palette >> (2 * id)) & 0x3 <= 3) by (bit_vector);
    }
    r
}

/// Remove the first `k` elements of the FIFO.
fn drop_front(fifo: &mut Vec<u8>, k: usize)
    requires
        k <= old(fifo)@.len(),
    ensures
        final(fifo)@ == old(fifo)@.skip(k as int),
{
    let mut i: usize = 0;
    while i < k
        invariant
            i <= k,
            k <= old(fifo)@.len(),
            fifo@ == old(fifo)@.skip(i as int),
        decreases k - i,
    {
        fifo.remove(0);
        proof {
            assert(fifo@ =~= old(fifo)@.skip(i as int + 1));
        }
        i = i + 1;
    }
}

/// Mix one fetched sprite row into the sprite FIFO, starting at column
/// `base` (the first visible column of the sprite).
fn mix_sprite_row(fifo: &mut Vec<ObjectPixel>, low: u8, high: u8, flags: u8, x_pos: u8, base: u8)
    requires
        base <= 8,
        old(fifo)@.len() <= 8,
        forall|k: int| 0 <= k < old(fifo)@.len() ==> old(fifo)@[k].color_id <= 3,
    ensures
        final(fifo)@ == spec_mix(old(fifo)@, low, high, flags, x_pos, base as int),
        final(fifo)@.len() <= 8,
        forall|k: int| 0 <= k < final(fifo)@.len() ==> final(fifo)@[k].color_id <= 3,
{
    proof {
        reveal(spec_mix);
    }
    let mut i: usize = base as usize;
    while i < 8
        invariant
            base as usize <= i <= 8,
            fifo@.len() <= 8,
            forall|k: int| 0 <= k < fifo@.len() ==> fifo@[k].color_id <= 3,
            spec_mix(fifo@, low, high, flags, x_pos, i as int) == spec_mix(
                old(fifo)@,
                low,
                high,
                flags,
                x_pos,
                base as int,
            ),
        decreases 8 - i,
    {
        proof {
            reveal(spec_mix);
        }
        let pos: u8 = if (flags >> 5) & 0x1 == 1 {
            i as u8
        } else {
            7 - (i as u8)
        };
        let px = ObjectPixel { color_id: color_id(low, high, pos), flags: flags, x_pos: x_pos };
        if i + 1 <= fifo.len() {
            if fifo[i].color_id == 0 && px.color_id != 0 {
                fifo.set(i, px);
            }
        } else {
            fifo.push(px);
        }
        i = i + 1;
    }
    proof {
        reveal(spec_mix);
    }
}

/// Append eight blank (color 0) pixels to the background FIFO.
fn push_blank_row(fifo: &mut Vec<u8>)
    requires
        old(fifo)@.len() <= 8,
        forall|k: int| 0 <= k < old(fifo)@.len() ==> old(fifo)@[k] <= 3,
    ensures
        final(fifo)@ == old(fifo)@ + seq![0u8, 0u8, 0u8, 0u8, 0u8, 0u8, 0u8, 0u8],
        final(fifo)@.len() <= 16,
        forall|k: int| 0 <= k < final(fifo)@.len() ==> final(fifo)@[k] <= 3,
{
    let mut j: usize = 0;
    while j < 8
        invariant
            j <= 8,
            fifo@.len() == old(fifo)@.len() + j,
            forall|k: int| 0 <= k < old(fifo)@.len() ==> fifo@[k] == old(fifo)@[k],
            forall|k: int| old(fifo)@.len() <= k < fifo@.len() ==> fifo@[k] == 0,
        decreases 8 - j,
    {
        fifo.push(0);
        j = j + 1;
    }
    proof {
        assert(fifo@ =~= old(fifo)@ + seq![0u8, 0u8, 0u8, 0u8, 0u8, 0u8, 0u8, 0u8]);
    }
}

/// Append one decoded background tile row to the background FIFO,
/// leftmost pixel first.
#[verifier::rlimit(100)]
fn push_bg_row(fifo: &mut Vec<u8>, low: u8, high: u8)
    requires
        old(fifo)@.len() <= 8,
        forall|k: int| 0 <= k < old(fifo)@.len() ==> old(fifo)@[k] <= 3,
    ensures
        final(fifo)@ == old(fifo)@ + spec_bg_pixels(low, high),
        final(fifo)@.len() <= 16,
        forall|k: int| 0 <= k < final(fifo)@.len() ==> final(fifo)@[k] <= 3,
{
    let c7 = color_id(low, high, 7);
    let c6 = color_id(low, high, 6);
    let c5 = color_id(low, high, 5);
    let c4 = color_id(low, high, 4);
    let c3 = color_id(low, high, 3);
    let c2 = color_id(low, high, 2);
    let c1 = color_id(low, high, 1);
    let c0 = color_id(low, high, 0);
    fifo.push(c7);
    fifo.push(c6);
    fifo.push(c5);
    fifo.push(c4);
    fifo.push(c3);
    fifo.push(c2);
    fifo.push(c1);
    fifo.push(c0);
    proof {
        reveal(spec_bg_pixels);
        assert(spec_bg_pixels(low, high) =~= seq![c7, c6, c5, c4, c3, c2, c1, c0]);
        assert(fifo@ =~= old(fifo)@ + seq![c7, c6, c5, c4, c3, c2, c1, c0]);
    }
}

impl PpuView {
    /// One step of the background (or window) pixel fetcher's five-step
    /// cycle: get tile number, get low plane, get high plane, one idle
    /// step on a fresh scanline, push eight pixels when the FIFO has room.
    /// With the background disabled via LCDC bit 0 it feeds blank pixels.
    #[verifier::opaque]
    pub open spec fn spec_bg_fetcher(self) -> PpuView {
        let p = self;
        if (p.control >> BG_OR_WINDOW_ENABLED) & 0x1 == 0 {
            if p.background_fifo.len() <= 8 {
                PpuView {
                    background_fifo: p.background_fifo + seq![0u8, 0u8, 0u8, 0u8, 0u8, 0u8, 0u8, 0u8],
                    ..p
                }
            } else {
                p
            }
        } else if p.fs.bg_fetcher_step < 1 {
            let tile_map: u16 = if p.fs.is_fetching_window {
                if (p.control >> WINDOW_TILE_MAP) & 0x1 == 1 {
                    0x9C00
                } else {
                    0x9800
                }
            } else {
                if (p.control >> BG_TILE_MAP) & 0x1 == 1 {
                    0x9C00
                } else {
                    0x9800
                }
            };
            let tile_x: u16 = if p.fs.is_fetching_window {
                (p.fs.fetcher_x % 32) as u16
            } else {
                (p.fs.fetcher_x.wrapping_add((p.scx as u16) / 8) % 32) as u16
            };
            let tile_y: u16 = if p.fs.is_fetching_window {
                (32 * (p.window_line_counter / 8)) as u16
            } else {
                (32 * ((((p.ly as u16) + (p.scy as u16)) % 256) / 8)) as u16
            };
            let rw = if p.fs.is_fetching_window {
                true
            } else {
                p.rendered_window_on_scanline
            };
            let tn = p.vram[((tile_map + ((tile_x + tile_y) % 1024)) - 0x8000) as int];
            PpuView {
                rendered_window_on_scanline: rw,
                fs: FetchState { tile_number: tn, bg_fetcher_step: 1, ..p.fs },
                ..p
            }
        } else if p.fs.bg_fetcher_step < 2 {
            let offset: u16 = if p.fs.is_fetching_window {
                (2 * (p.window_line_counter % 8)) as u16
            } else {
                (2 * (((p.ly as u16) + (p.scy as u16)) % 8)) as u16
            };
            let tile = spec_bg_tile_base(p.control, p.fs.tile_number);
            let b = p.vram[((tile + offset) - 0x8000) as int];
            PpuView { fs: FetchState { tile_data_low: b, bg_fetcher_step: 2, ..p.fs }, ..p }
        } else if p.fs.bg_fetcher_step < 3 {
            let offset: u16 = if p.fs.is_fetching_window {
                (2 * (p.window_line_counter % 8)) as u16
            } else {
                (2 * (((p.ly as u16) + (p.scy as u16)) % 8)) as u16
            };
            let tile = spec_bg_tile_base(p.control, p.fs.tile_number);
            let b = p.vram[((tile + offset + 1) - 0x8000) as int];
            PpuView { fs: FetchState { tile_data_high: b, bg_fetcher_step: 3, ..p.fs }, ..p }
        } else if p.fs.new_scanline {
            PpuView { fs: FetchState { new_scanline: false, bg_fetcher_step: 0, ..p.fs }, ..p }
        } else {
            let p2 = if p.background_fifo.len() <= 8 {
                PpuView {
                    background_fifo: p.background_fifo + spec_bg_pixels(
                        p.fs.tile_data_low,
                        p.fs.tile_data_high,
                    ),
                    fs: FetchState { bg_fetcher_step: 0, ..p.fs },
                    ..p
                }
            } else {
                p
            };
            PpuView {
                fs: FetchState { fetcher_x: p2.fs.fetcher_x.wrapping_add(1), ..p2.fs },
                ..p2
            }
        }
    }

    /// One step of the sprite fetcher: arm on the next reachable object,
    /// then tile number, low plane, high plane, and finally mix the row
    /// into the sprite FIFO (objects with X < 8 lose their hidden left
    /// columns) and re-arm.
    #[verifier::opaque]
    pub open spec fn spec_sprite_fetcher(self) -> PpuView {
        let p = self;
        let armed = if p.fs.current_sprite is None {
            match spec_best_sprite(p.sprite_buffer, p.fs.scanline_x, 0) {
                Some(i) => PpuView {
                    sprite_buffer: p.sprite_buffer.remove(i),
                    fs: FetchState { current_sprite: Some(p.sprite_buffer[i]), ..p.fs },
                    ..p
                },
                None => p,
            }
        } else {
            p
        };
        match armed.fs.current_sprite {
            None => armed,
            Some(sprite) => {
                let height = spec_sprite_height(armed.control);
                let voff = spec_vertical_offset(armed.ly, sprite, height);
                if armed.fs.sprite_fetcher_step < 1 {
                    PpuView {
                        fs: FetchState {
                            tile_number: sprite.tile_number,
                            bg_fetcher_step: 0,
                            sprite_fetcher_step: 1,
                            ..armed.fs
                        },
                        ..armed
                    }
                } else if armed.fs.sprite_fetcher_step < 2 {
                    let tile = (armed.fs.tile_number as u16) * 16;
                    PpuView {
                        fs: FetchState {
                            tile_data_low: armed.vram[(tile + voff) as int],
                            sprite_fetcher_step: 2,
                            ..armed.fs
                        },
                        ..armed
                    }
                } else if armed.fs.sprite_fetcher_step < 3 {
                    let tile = (armed.fs.tile_number as u16) * 16;
                    PpuView {
                        fs: FetchState {
                            tile_data_high: armed.vram[(tile + voff + 1) as int],
                            sprite_fetcher_step: 3,
                            ..armed.fs
                        },
                        ..armed
                    }
                } else {
                    let base: u8 = if sprite.x_pos < 8 {
                        (8 - sprite.x_pos) as u8
                    } else {
                        0
                    };
                    let fifo = spec_mix(
                        armed.sprite_fifo,
                        armed.fs.tile_data_low,
                        armed.fs.tile_data_high,
                        sprite.sprite_flags,
                        sprite.x_pos,
                        base as int,
                    );
                    let p2 = PpuView { sprite_fifo: fifo, ..armed };
                    match spec_best_sprite(p2.sprite_buffer, p2.fs.scanline_x, 0) {
                        Some(i) => PpuView {
                            sprite_buffer: p2.sprite_buffer.remove(i),
                            fs: FetchState {
                                current_sprite: Some(p2.sprite_buffer[i]),
                                sprite_fetcher_step: 0,
                                ..p2.fs
                            },
                            ..p2
                        },
                        None => PpuView {
                            fs: FetchState {
                                current_sprite: None,
                                sprite_fetcher_step: 0,
                                ..p2.fs
                            },
                            ..p2
                        },
                    }
                }
            },
        }
    }

    /// Push at most one pixel to the LCD: pop a background pixel (after
    /// discarding SCX mod 8 leading pixels at the line start), mix the
    /// front sprite pixel per transparency and background priority, and
    /// store the palette-mapped color. Then check window activation and
    /// end-of-line; the returned flag stops the second dot of this cycle.
    #[verifier::opaque]
    pub open spec fn spec_draw_dot(self) -> (PpuView, bool) {
        let p = self;
        let p1 = if p.background_fifo.len() > 8 && p.fs.scanline_x <= 159 {
            let pa = if p.fs.scanline_x == 0 && !p.rendered_window_on_scanline {
                PpuView { background_fifo: p.background_fifo.skip((p.scx % 8) as int), ..p }
            } else {
                p
            };
            let bg_id = pa.background_fifo[0];
            let pb = PpuView { background_fifo: pa.background_fifo.drop_first(), ..pa };
            let bg_color = spec_palette_color(pb.bgp, bg_id);
            let idx = (pb.ly as int) * 160 + (pb.fs.scanline_x as int);
            let pc = if pb.sprite_fifo.len() > 0 {
                let sp = pb.sprite_fifo[0];
                let pb2 = PpuView { sprite_fifo: pb.sprite_fifo.drop_first(), ..pb };
                let color = if sp.color_id == 0 {
                    bg_color
                } else if (sp.flags >> 7) & 0x1 == 1 && bg_id != 0 {
                    bg_color
                } else if (sp.flags >> 4) & 0x1 == 1 {
                    spec_palette_color(pb2.obp1, sp.color_id)
                } else {
                    spec_palette_color(pb2.obp0, sp.color_id)
                };
                PpuView { lcd: pb2.lcd.update(idx, color), ..pb2 }
            } else {
                PpuView { lcd: pb.lcd.update(idx, bg_color), ..pb }
            };
            PpuView {
                fs: FetchState { scanline_x: pc.fs.scanline_x.wrapping_add(1), ..pc.fs },
                ..pc
            }
        } else {
            p
        };
        if !p1.fs.is_fetching_window && p1.window_in_frame && ((p1.control >> WINDOW_ENABLED) & 0x1
            == 1) && p1.wx <= p1.fs.scanline_x + 7 {
            (
                PpuView {
                    background_fifo: Seq::empty(),
                    fs: FetchState {
                        bg_fetcher_step: 0,
                        fetcher_x: 0,
                        is_fetching_window: true,
                        ..p1.fs
                    },
                    ..p1
                },
                true,
            )
        } else if p1.fs.scanline_x > 159 {
            (p1.spec_with_mode(Mode::HBLANK), true)
        } else {
            (p1, false)
        }
    }

    /// One 2-dot tick in mode 2: examine one OAM entry and buffer it when
    /// its vertical span covers this scanline, its X is nonzero, and fewer
    /// than ten objects are buffered; after entry 39, enter mode 3.
    #[verifier::opaque]
    pub open spec fn spec_tick_oamscan(self) -> PpuView {
        let p = self;
        let p1 = if p.sprite_buffer.len() < 10 {
            let base = 4 * (p.fs.oam_ptr as int);
            let y = p.oam[base];
            let x = p.oam[base + 1];
            let tn0 = p.oam[base + 2];
            let fl = p.oam[base + 3];
            let tn = if (p.control >> SPRITE_SIZE) & 0x1 == 1 {
                tn0 & 0xFE
            } else {
                tn0
            };
            let height = spec_sprite_height(p.control);
            if x > 0 && (p.ly as u16) + 16 >= (y as u16) && ((p.ly as u16) + 16 < (y as u16)
                + height) {
                PpuView {
                    sprite_buffer: p.sprite_buffer.push(
                        Object { y_pos: y, x_pos: x, tile_number: tn, sprite_flags: fl },
                    ),
                    ..p
                }
            } else {
                p
            }
        } else {
            p
        };
        if p1.fs.oam_ptr < 39 {
            PpuView { fs: FetchState { oam_ptr: (p1.fs.oam_ptr + 1) as u8, ..p1.fs }, ..p1 }
        } else {
            (PpuView { fs: FetchState { oam_ptr: 0, ..p1.fs }, ..p1 }).spec_with_mode(Mode::DRAW)
        }
    }

    /// One 2-dot tick in mode 3: run the sprite fetcher when sprites are
    /// enabled; while no sprite fetch is in flight, run the background
    /// fetcher and push up to two pixels.
    #[verifier::opaque]
    pub open spec fn spec_tick_draw(self) -> PpuView {
        let p = self;
        let p1 = if (p.control >> SPRITES_ENABLED) & 0x1 == 1 {
            p.spec_sprite_fetcher()
        } else {
            p
        };
        if p1.fs.current_sprite is Some {
            p1
        } else {
            let p2 = p1.spec_bg_fetcher();
            let (p3, stop) = p2.spec_draw_dot();
            if stop {
                p3
            } else {
                p3.spec_draw_dot().0
            }
        }
    }

    /// One 2-dot tick in mode 0: the per-scanline state is cleared; at dot
    /// 456 the line ends, the window line counter advances if the window
    /// rendered, and LY 144 enters V-blank.
    #[verifier::opaque]
    pub open spec fn spec_tick_hblank(self) -> PpuView {
        let p = self;
        let p1 = PpuView {
            fs: FetchState::spec_init(),
            background_fifo: Seq::empty(),
            sprite_fifo: Seq::empty(),
            sprite_buffer: Seq::empty(),
            ..p
        };
        if p1.scanline_timeline == 456 {
            let p2 = if p1.rendered_window_on_scanline {
                PpuView {
                    window_line_counter: p1.window_line_counter.wrapping_add(1),
                    rendered_window_on_scanline: false,
                    ..p1
                }
            } else {
                p1
            };
            let p3 = PpuView { ly: p2.ly.wrapping_add(1), ..p2 };
            if p3.ly > 143 {
                p3.spec_with_mode(Mode::VBLANK)
            } else {
                p3.spec_with_mode(Mode::OAMSCAN)
            }
        } else {
            p1
        }
    }

    /// One 2-dot tick in mode 1: LY advances every 456 dots; after 4,560
    /// V-blank dots the frame is latched and a new frame begins.
    #[verifier::opaque]
    pub open spec fn spec_tick_vblank(self) -> PpuView {
        let p = self;
        let p1 = PpuView {
            window_line_counter: 0,
            vblank_timeline: p.vblank_timeline.wrapping_add(2),
            ..p
        };
        if p1.vblank_timeline == 4560 {
            (PpuView {
                vblank_timeline: 0,
                ly: 0,
                vblank_irq_triggered: false,
                window_in_frame: false,
                rendered_frame: true,
                ..p1
            }).spec_with_mode(Mode::OAMSCAN)
        } else if p1.vblank_timeline % 456 == 0 {
            PpuView { ly: p1.ly.wrapping_add(1), ..p1 }
        } else {
            p1
        }
    }

    /// One 2-dot tick of the PPU: advance the scanline dot counter, latch
    /// window reachability when LY meets WY, run the mode's step, wrap the
    /// dot counter at 456, and refresh the STAT coincidence bit.
    #[verifier::opaque]
    pub open spec fn spec_tick(self) -> PpuView {
        let p0 = PpuView { scanline_timeline: self.scanline_timeline.wrapping_add(2), ..self };
        let p1 = if p0.wy == p0.ly {
            PpuView { window_in_frame: true, ..p0 }
        } else {
            p0
        };
        let p2 = match p1.spec_mode() {
            Mode::OAMSCAN => p1.spec_tick_oamscan(),
            Mode::DRAW => p1.spec_tick_draw(),
            Mode::HBLANK => p1.spec_tick_hblank(),
            Mode::VBLANK => p1.spec_tick_vblank(),
        };
        let p3 = if p2.scanline_timeline == 456 {
            PpuView { scanline_timeline: 0, ..p2 }
        } else {
            p2
        };
        PpuView {
            stat: (p3.stat & 0xFB) | (if p3.ly == p3.lyc {
                4u8
            } else {
                0u8
            }),
            ..p3
        }
    }

    /// One machine cycle (four dots): two ticks while the LCD is enabled,
    /// nothing while it is off.
    #[verifier::opaque]
    pub open spec fn spec_update(self) -> PpuView {
        if (self.control >> LCD_ENABLED) & 0x1 == 1 {
            self.spec_tick().spec_tick()
        } else {
            self
        }
    }
}

impl PPU {
    /// Read one memory-mapped PPU register.
    pub fn read_registers(&self, addr: u16) -> (val: u8)
        requires
            0xFF40 <= addr <= 0xFF4B,
        ensures
            val == self@.spec_read_register(addr),
    {
        match addr {
            0xFF40 => self.control,
            0xFF41 => self.stat,
            0xFF42 => self.scy,
            0xFF43 => self.scx,
            0xFF44 => self.ly,
            0xFF45 => self.lyc,
            0xFF46 => 0x00,
            0xFF47 => self.bgp,
            0xFF48 => self.obp0,
            0xFF49 => self.obp1,
            0xFF4A => self.wy,
            _ => self.wx,
        }
    }

    /// Write one memory-mapped PPU register.
    pub fn write_registers(&mut self, addr: u16, val: u8)
        requires
            0xFF40 <= addr <= 0xFF4B,
            old(self)@.wf(),
        ensures
            final(self)@ == old(self)@.spec_write_register(addr, val),
            final(self)@.wf(),
    {
        proof {
            reveal(PpuView::spec_write_register);
        }
        let ghost s0: u8 = self.stat;
        match addr {
            0xFF40 => {
                self.control = val;
                if (val >> LCD_ENABLED) & 0x1 == 0 {
                    self.stat = self.stat & 0xFC;
                    self.ly = 0;
                    self.scanline_timeline = 0;
                    self.vblank_timeline = 0;
                    self.window_line_counter = 0;
                }
            },
            0xFF41 => self.stat = (self.stat & 0x07) | (val & 0xF8),
            0xFF42 => self.scy = val,
            0xFF43 => self.scx = val,
            0xFF44 => (),
            0xFF45 => self.lyc = val,
            0xFF46 => (),
            0xFF47 => self.bgp = val,
            0xFF48 => self.obp0 = val,
            0xFF49 => self.obp1 = val,
            0xFF4A => self.wy = val,
            _ => self.wx = val,
        }
        proof {
            assert(self@ =~= old(self)@.spec_write_register(addr, val));
            assert((s0 & 0xFC) & 0x3 == 0) by (bit_vector);
            assert(((s0 & 0x07) | (val & 0xF8)) & 0x3 == s0 & 0x3) by (bit_vector);
        }
    }

    /// The current mode from STAT bits 0-1.
    pub fn get_mode(&self) -> (mode: Mode)
        ensures
            mode == self@.spec_mode(),
    {
        match self.stat & 0x3 {
            0 => Mode::HBLANK,
            1 => Mode::VBLANK,
            2 => Mode::OAMSCAN,
            _ => Mode::DRAW,
        }
    }

    /// Switch STAT's mode bits.
    fn update_mode(&mut self, mode: Mode)
        ensures
            final(self)@ == old(self)@.spec_with_mode(mode),
            final(self)@.spec_mode() == mode,
    {
        let bits: u8 = match mode {
            Mode::HBLANK => 0,
            Mode::VBLANK => 1,
            Mode::OAMSCAN => 2,
            Mode::DRAW => 3,
        };
        let ghost s0: u8 = self.stat;
        self.stat = (self.stat & 0xFC) | bits;
        proof {
            assert(self@ =~= old(self)@.spec_with_mode(mode));
            assert(((s0 & 0xFC) | bits) & 0x3 == bits) by (bit_vector)
                requires
                    bits == 0 || bits == 1 || bits == 2 || bits == 3,
            ;
        }
    }

    /// Read a VRAM byte through the bus. During mode 3 (draw) the CPU is
    /// locked out and reads 0xFF.
    pub fn read_vram(&self, addr: u16) -> (val: u8)
        requires
            addr < 0x2000,
            self@.wf(),
        ensures
            val == if self@.spec_mode() == Mode::DRAW {
                0xFF
            } else {
                self@.vram[addr as int]
            },
    {
        if matches!(self.get_mode(), Mode::DRAW) {
            0xFF
        } else {
            self.vram[addr as usize]
        }
    }

    /// Write a VRAM byte through the bus; dropped during mode 3.
    pub fn write_vram(&mut self, addr: u16, val: u8)
        requires
            addr < 0x2000,
            old(self)@.wf(),
        ensures
            final(self)@ == if old(self)@.spec_mode() == Mode::DRAW {
                old(self)@
            } else {
                PpuView { vram: old(self)@.vram.update(addr as int, val), ..old(self)@ }
            },
            final(self)@.wf(),
    {
        if !matches!(self.get_mode(), Mode::DRAW) {
            self.vram.set(addr as usize, val);
            proof {
                assert(self@ =~= (PpuView {
                    vram: old(self)@.vram.update(addr as int, val),
                    ..old(self)@
                }));
            }
        }
    }

    /// Read an OAM byte through the bus. During modes 2 and 3 the CPU is
    /// locked out and reads 0xFF.
    pub fn read_oam(&self, addr: u16) -> (val: u8)
        requires
            addr < 160,
            self@.wf(),
        ensures
            val == if self@.spec_mode() == Mode::DRAW || self@.spec_mode() == Mode::OAMSCAN {
                0xFF
            } else {
                self@.oam[addr as int]
            },
    {
        if matches!(self.get_mode(), Mode::DRAW | Mode::OAMSCAN) {
            0xFF
        } else {
            self.oam[addr as usize]
        }
    }

    /// Write an OAM byte through the bus; dropped during modes 2 and 3.
    pub fn write_oam(&mut self, addr: u16, val: u8)
        requires
            addr < 160,
            old(self)@.wf(),
        ensures
            final(self)@ == if old(self)@.spec_mode() == Mode::DRAW || old(self)@.spec_mode()
                == Mode::OAMSCAN {
                old(self)@
            } else {
                PpuView { oam: old(self)@.oam.update(addr as int, val), ..old(self)@ }
            },
            final(self)@.wf(),
    {
        if !matches!(self.get_mode(), Mode::DRAW | Mode::OAMSCAN) {
            self.oam.set(addr as usize, val);
            proof {
                assert(self@ =~= (PpuView {
                    oam: old(self)@.oam.update(addr as int, val),
                    ..old(self)@
                }));
            }
        }
    }

    /// Find the sprite to fetch next: among the buffered objects whose X
    /// position has come within reach of the current pixel, the one with
    /// the smallest X, earliest-buffered first on ties. Removes it from
    /// the buffer.
    fn detect_sprite(&mut self) -> (r: Option<Object>)
        requires
            old(self)@.wf_core(),
        ensures
            final(self)@.wf_core(),
            match spec_best_sprite(old(self)@.sprite_buffer, old(self)@.fs.scanline_x, 0) {
                Some(i) => r == Some(old(self)@.sprite_buffer[i]) && final(self)@ == (PpuView {
                    sprite_buffer: old(self)@.sprite_buffer.remove(i),
                    ..old(self)@
                }),
                None => r is None && final(self)@ == old(self)@,
            },
    {
        proof {
            lemma_best_sprite_in_range(self@.sprite_buffer, self@.fs.scanline_x, 0);
        }
        let best = best_sprite_from(&self.sprite_buffer, self.fs.scanline_x, 0);
        match best {
            Some(i) => {
                let obj = self.sprite_buffer.remove(i);
                proof {
                    assert(self@ =~= (PpuView {
                        sprite_buffer: old(self)@.sprite_buffer.remove(i as int),
                        ..old(self)@
                    }));
                }
                Some(obj)
            },
            None => None,
        }
    }

    /// One step of the sprite fetcher; see `PpuView::spec_sprite_fetcher`.
    #[verifier::rlimit(100)]
    pub fn sprite_pixel_fetcher(&mut self)
        requires
            old(self)@.wf_core(),
        ensures
            final(self)@ == old(self)@.spec_sprite_fetcher(),
            final(self)@.wf_core(),
            final(self)@.ly == old(self)@.ly,
            final(self)@.lyc == old(self)@.lyc,
            final(self)@.stat == old(self)@.stat,
            final(self)@.scanline_timeline == old(self)@.scanline_timeline,
            final(self)@.vblank_timeline == old(self)@.vblank_timeline,
            final(self)@.window_line_counter == old(self)@.window_line_counter,
            final(self)@.window_in_frame == old(self)@.window_in_frame,
            final(self)@.rendered_window_on_scanline == old(self)@.rendered_window_on_scanline,
            final(self)@.fs.scanline_x == old(self)@.fs.scanline_x,
            final(self)@.background_fifo == old(self)@.background_fifo,
            final(self)@.fs.bg_fetcher_step == 0 || final(self)@.fs.bg_fetcher_step == old(
                self,
            )@.fs.bg_fetcher_step,
    {
        proof {
            reveal(PpuView::spec_sprite_fetcher);
        }
        if self.fs.current_sprite.is_none() {
            let det = self.detect_sprite();
            self.fs.current_sprite = det;
        }
        match self.fs.current_sprite {
            None => {
                proof {
                    assert(self@ =~= old(self)@.spec_sprite_fetcher());
                }
            },
            Some(sprite) => {
                let height: u16 = if (self.control >> SPRITE_SIZE) & 0x1 == 1 {
                    16
                } else {
                    8
                };
                let row: u16 = (self.ly as u16).wrapping_sub(
                    (sprite.y_pos as u16).wrapping_sub(16),
                ) % height;
                let base_off: u16 = row.wrapping_mul(2);
                let voff: u16 = if (sprite.sprite_flags >> 6) & 0x1 == 1 {
                    ((height - 1) * 2) - base_off
                } else {
                    base_off
                };
                assert(voff <= 30);
                if self.fs.sprite_fetcher_step < 1 {
                    self.fs.tile_number = sprite.tile_number;
                    self.fs.bg_fetcher_step = 0;
                    self.fs.sprite_fetcher_step = 1;
                    proof {
                        assert(self@ =~= old(self)@.spec_sprite_fetcher());
                    }
                } else if self.fs.sprite_fetcher_step < 2 {
                    let tile: u16 = (self.fs.tile_number as u16) * 16;
                    self.fs.tile_data_low = self.vram[(tile + voff) as usize];
                    self.fs.sprite_fetcher_step = 2;
                    proof {
                        assert(self@ =~= old(self)@.spec_sprite_fetcher());
                    }
                } else if self.fs.sprite_fetcher_step < 3 {
                    let tile: u16 = (self.fs.tile_number as u16) * 16;
                    self.fs.tile_data_high = self.vram[(tile + voff + 1) as usize];
                    self.fs.sprite_fetcher_step = 3;
                    proof {
                        assert(self@ =~= old(self)@.spec_sprite_fetcher());
                    }
                } else {
                    let base: u8 = if sprite.x_pos < 8 {
                        8 - sprite.x_pos
                    } else {
                        0
                    };
                    mix_sprite_row(
                        &mut self.sprite_fifo,
                        self.fs.tile_data_low,
                        self.fs.tile_data_high,
                        sprite.sprite_flags,
                        sprite.x_pos,
                        base,
                    );
                    let det = self.detect_sprite();
                    self.fs.current_sprite = det;
                    self.fs.sprite_fetcher_step = 0;
                    proof {
                        assert(self@ =~= old(self)@.spec_sprite_fetcher());
                    }
                }
            },
        }
    }

    /// One step of the background pixel fetcher; see
    /// `PpuView::spec_bg_fetcher`.
    #[verifier::rlimit(100)]
    pub fn background_pixel_fetcher(&mut self)
        requires
            old(self)@.wf_core(),
            old(self)@.spec_mode() == Mode::DRAW,
        ensures
            final(self)@ == old(self)@.spec_bg_fetcher(),
            final(self)@.wf_core(),
            final(self)@.ly == old(self)@.ly,
            final(self)@.lyc == old(self)@.lyc,
            final(self)@.stat == old(self)@.stat,
            final(self)@.scanline_timeline == old(self)@.scanline_timeline,
            final(self)@.vblank_timeline == old(self)@.vblank_timeline,
            final(self)@.window_line_counter == old(self)@.window_line_counter,
            final(self)@.window_in_frame == old(self)@.window_in_frame,
            final(self)@.fs.scanline_x == old(self)@.fs.scanline_x,
    {
        proof {
            reveal(PpuView::spec_bg_fetcher);
        }
        if (self.control >> BG_OR_WINDOW_ENABLED) & 0x1 == 0 {
            if self.background_fifo.len() <= 8 {
                push_blank_row(&mut self.background_fifo);
            }
            proof {
                assert(self@ =~= old(self)@.spec_bg_fetcher());
            }
            return ;
        }
        if self.fs.bg_fetcher_step < 1 {
            let tile_map: u16 = if self.fs.is_fetching_window {
                if (self.control >> WINDOW_TILE_MAP) & 0x1 == 1 {
                    0x9C00
                } else {
                    0x9800
                }
            } else {
                if (self.control >> BG_TILE_MAP) & 0x1 == 1 {
                    0x9C00
                } else {
                    0x9800
                }
            };
            let tile_x: u16 = if self.fs.is_fetching_window {
                self.fs.fetcher_x % 32
            } else {
                self.fs.fetcher_x.wrapping_add((self.scx as u16) / 8) % 32
            };
            let tile_y: u16 = if self.fs.is_fetching_window {
                32 * (self.window_line_counter / 8)
            } else {
                32 * ((((self.ly as u16) + (self.scy as u16)) % 256) / 8)
            };
            if self.fs.is_fetching_window {
                self.rendered_window_on_scanline = true;
            }
            let tn = self.vram[((tile_map + ((tile_x + tile_y) % 1024)) - 0x8000) as usize];
            self.fs.tile_number = tn;
            self.fs.bg_fetcher_step = 1;
            proof {
                assert(self@ =~= old(self)@.spec_bg_fetcher());
            }
        } else if self.fs.bg_fetcher_step < 2 {
            let offset: u16 = self.bg_row_offset();
            let tile: u16 = self.bg_tile_base();
            self.fs.tile_data_low = self.vram[((tile + offset) - 0x8000) as usize];
            self.fs.bg_fetcher_step = 2;
            proof {
                assert(self@ =~= old(self)@.spec_bg_fetcher());
            }
        } else if self.fs.bg_fetcher_step < 3 {
            let offset: u16 = self.bg_row_offset();
            let tile: u16 = self.bg_tile_base();
            self.fs.tile_data_high = self.vram[((tile + offset + 1) - 0x8000) as usize];
            self.fs.bg_fetcher_step = 3;
            proof {
                assert(self@ =~= old(self)@.spec_bg_fetcher());
            }
        } else if self.fs.new_scanline {
            self.fs.new_scanline = false;
            self.fs.bg_fetcher_step = 0;
            proof {
                assert(self@ =~= old(self)@.spec_bg_fetcher());
            }
        } else {
            if self.background_fifo.len() <= 8 {
                let low = self.fs.tile_data_low;
                let high = self.fs.tile_data_high;
                push_bg_row(&mut self.background_fifo, low, high);
                self.fs.bg_fetcher_step = 0;
            }
            self.fs.fetcher_x = self.fs.fetcher_x.wrapping_add(1);
            proof {
                assert(self@ =~= old(self)@.spec_bg_fetcher());
            }
        }
    }

    /// The doubled in-tile row offset of the line being fetched.
    fn bg_row_offset(&self) -> (r: u16)
        requires
            self@.wf_core(),
        ensures
            r == if self@.fs.is_fetching_window {
                (2 * (self@.window_line_counter % 8)) as u16
            } else {
                (2 * (((self@.ly as u16) + (self@.scy as u16)) % 8)) as u16
            },
            r <= 14,
    {
        if self.fs.is_fetching_window {
            2 * (self.window_line_counter % 8)
        } else {
            2 * (((self.ly as u16) + (self.scy as u16)) % 8)
        }
    }

    /// The tile-data base address selected by LCDC bit 4.
    fn bg_tile_base(&self) -> (r: u16)
        ensures
            r == spec_bg_tile_base(self@.control, self@.fs.tile_number),
            0x8000 <= r <= 0x9FF0,
    {
        let tn = self.fs.tile_number;
        if (self.control >> TILE_ADDRESSING) & 0x1 == 1 {
            0x8000 + (tn as u16) * 16
        } else if tn < 128 {
            0x9000 + (tn as u16) * 16
        } else {
            0x8800 + ((tn - 128) as u16) * 16
        }
    }

    /// Push at most one pixel and check for window activation and end of
    /// line; see `PpuView::spec_draw_dot`.
    #[verifier::rlimit(100)]
    fn draw_dot(&mut self) -> (stop: bool)
        requires
            old(self)@.wf_core(),
            old(self)@.spec_mode() == Mode::DRAW,
            old(self)@.ly <= 143,
        ensures
            (final(self)@, stop) == old(self)@.spec_draw_dot(),
            final(self)@.wf_core(),
            final(self)@.ly == old(self)@.ly,
            final(self)@.lyc == old(self)@.lyc,
            final(self)@.scanline_timeline == old(self)@.scanline_timeline,
            final(self)@.vblank_timeline == old(self)@.vblank_timeline,
            final(self)@.window_line_counter == old(self)@.window_line_counter,
            final(self)@.window_in_frame == old(self)@.window_in_frame,
            !stop ==> final(self)@.spec_mode() == Mode::DRAW && final(self)@.fs.scanline_x <= 159,
            stop ==> final(self)@.spec_mode() == Mode::HBLANK || (final(self)@.spec_mode()
                == Mode::DRAW && final(self)@.background_fifo.len() == 0
                && final(self)@.fs.bg_fetcher_step == 0),
    {
        proof {
            reveal(PpuView::spec_draw_dot);
        }
        if self.background_fifo.len() > 8 && self.fs.scanline_x <= 159 {
            if self.fs.scanline_x == 0 && !self.rendered_window_on_scanline {
                let k = (self.scx % 8) as usize;
                drop_front(&mut self.background_fifo, k);
            }
            let bg_id = self.background_fifo.remove(0);
            proof {
                if old(self)@.fs.scanline_x == 0 && !old(self)@.rendered_window_on_scanline {
                    assert(self.background_fifo@ =~= old(self)@.background_fifo.skip(
                        (old(self)@.scx % 8) as int,
                    ).drop_first());
                } else {
                    assert(self.background_fifo@ =~= old(self)@.background_fifo.drop_first());
                }
            }
            let bg_color = palette_color(self.bgp, bg_id);
            let idx: usize = (self.ly as usize) * 160 + (self.fs.scanline_x as usize);
            if self.sprite_fifo.len() > 0 {
                let sp = self.sprite_fifo.remove(0);
                proof {
                    assert(self.sprite_fifo@ =~= old(self)@.sprite_fifo.drop_first());
                }
                let color = if sp.color_id == 0 {
                    bg_color
                } else if (sp.flags >> 7) & 0x1 == 1 && bg_id != 0 {
                    bg_color
                } else if (sp.flags >> 4) & 0x1 == 1 {
                    palette_color(self.obp1, sp.color_id)
                } else {
                    palette_color(self.obp0, sp.color_id)
                };
                self.lcd.set(idx, color);
            } else {
                self.lcd.set(idx, bg_color);
            }
            self.fs.scanline_x = self.fs.scanline_x.wrapping_add(1);
        }
        if !self.fs.is_fetching_window && self.window_in_frame && ((self.control
            >> WINDOW_ENABLED) & 0x1 == 1) && self.wx <= self.fs.scanline_x + 7 {
            self.fs.bg_fetcher_step = 0;
            self.fs.fetcher_x = 0;
            self.background_fifo.clear();
            self.fs.is_fetching_window = true;
            proof {
                assert(self@ =~= old(self)@.spec_draw_dot().0);
            }
            true
        } else if self.fs.scanline_x > 159 {
            self.update_mode(Mode::HBLANK);
            proof {
                assert(self@ =~= old(self)@.spec_draw_dot().0);
            }
            true
        } else {
            proof {
                assert(self@ =~= old(self)@.spec_draw_dot().0);
            }
            false
        }
    }

    /// One 2-dot tick in mode 2; see `PpuView::spec_tick_oamscan`.
    fn tick_oamscan(&mut self)
        requires
            old(self)@.wf_core(),
            old(self)@.spec_mode() == Mode::OAMSCAN,
        ensures
            final(self)@ == old(self)@.spec_tick_oamscan(),
            final(self)@.wf_core(),
            final(self)@.spec_mode() == Mode::OAMSCAN || final(self)@.spec_mode() == Mode::DRAW,
            final(self)@.ly == old(self)@.ly,
            final(self)@.vblank_timeline == old(self)@.vblank_timeline,
            final(self)@.window_line_counter == old(self)@.window_line_counter,
            final(self)@.scanline_timeline == old(self)@.scanline_timeline,
    {
        proof {
            reveal(PpuView::spec_tick_oamscan);
        }
        if self.sprite_buffer.len() < 10 {
            let base: usize = 4 * (self.fs.oam_ptr as usize);
            let y = self.oam[base];
            let x = self.oam[base + 1];
            let mut tn = self.oam[base + 2];
            let fl = self.oam[base + 3];
            let mut height: u16 = 8;
            if (self.control >> SPRITE_SIZE) & 0x1 == 1 {
                tn = tn & 0xFE;
                height = 16;
            }
            if x > 0 && (self.ly as u16) + 16 >= (y as u16) && ((self.ly as u16) + 16 < (y as u16)
                + height) {
                self.sprite_buffer.push(
                    Object { y_pos: y, x_pos: x, tile_number: tn, sprite_flags: fl },
                );
            }
        }
        if self.fs.oam_ptr < 39 {
            self.fs.oam_ptr = self.fs.oam_ptr + 1;
        } else {
            self.fs.oam_ptr = 0;
            self.update_mode(Mode::DRAW);
        }
        proof {
            assert(self@ =~= old(self)@.spec_tick_oamscan());
        }
    }

    /// One 2-dot tick in mode 0; see `PpuView::spec_tick_hblank`.
    fn tick_hblank(&mut self)
        requires
            old(self)@.wf_core(),
            old(self)@.spec_mode() == Mode::HBLANK,
            old(self)@.ly <= 143,
            old(self)@.window_line_counter <= old(self)@.ly,
        ensures
            final(self)@ == old(self)@.spec_tick_hblank(),
            final(self)@.wf_core(),
            final(self)@.vblank_timeline == old(self)@.vblank_timeline,
            final(self)@.scanline_timeline == old(self)@.scanline_timeline,
            final(self)@.spec_mode() == Mode::VBLANK ==> final(self)@.ly == 144,
            final(self)@.spec_mode() != Mode::VBLANK ==> final(self)@.ly <= 143
                && final(self)@.window_line_counter <= final(self)@.ly,
    {
        proof {
            reveal(PpuView::spec_tick_hblank);
        }
        self.fs = FetchState::init();
        self.background_fifo.clear();
        self.sprite_fifo.clear();
        self.sprite_buffer.clear();
        if self.scanline_timeline == 456 {
            if self.rendered_window_on_scanline {
                self.window_line_counter = self.window_line_counter.wrapping_add(1);
                self.rendered_window_on_scanline = false;
            }
            self.ly = self.ly.wrapping_add(1);
            if self.ly > 143 {
                self.update_mode(Mode::VBLANK);
            } else {
                self.update_mode(Mode::OAMSCAN);
            }
        }
        proof {
            assert(self@ =~= old(self)@.spec_tick_hblank());
        }
    }

    /// One 2-dot tick in mode 1; see `PpuView::spec_tick_vblank`.
    fn tick_vblank(&mut self)
        requires
            old(self)@.wf_core(),
            old(self)@.spec_mode() == Mode::VBLANK,
            old(self)@.vblank_timeline < 4560,
            old(self)@.vblank_timeline % 2 == 0,
            old(self)@.ly == 144 + old(self)@.vblank_timeline / 456,
        ensures
            final(self)@ == old(self)@.spec_tick_vblank(),
            final(self)@.wf_core(),
            final(self)@.scanline_timeline == old(self)@.scanline_timeline,
            final(self)@.vblank_timeline % 2 == 0,
            final(self)@.spec_mode() == Mode::VBLANK ==> final(self)@.vblank_timeline < 4560
                && final(self)@.ly == 144 + final(self)@.vblank_timeline / 456,
            final(self)@.spec_mode() != Mode::VBLANK ==> final(self)@.spec_mode() == Mode::OAMSCAN
                && final(self)@.vblank_timeline == 0 && final(self)@.ly == 0
                && final(self)@.window_line_counter == 0,
    {
        proof {
            reveal(PpuView::spec_tick_vblank);
        }
        self.window_line_counter = 0;
        self.vblank_timeline = self.vblank_timeline.wrapping_add(2);
        if self.vblank_timeline == 4560 {
            self.vblank_timeline = 0;
            self.ly = 0;
            self.vblank_irq_triggered = false;
            self.window_in_frame = false;
            self.rendered_frame = true;
            self.update_mode(Mode::OAMSCAN);
        } else if self.vblank_timeline % 456 == 0 {
            proof {
                let vt = self.vblank_timeline as int;
                assert(vt % 456 == 0 && 0 < vt < 4560 ==> (vt - 2) / 456 + 1 == vt / 456)
                    by (nonlinear_arith);
            }
            self.ly = self.ly.wrapping_add(1);
        } else {
            proof {
                let vt = self.vblank_timeline as int;
                assert((vt % 456 != 0 && 0 < vt < 4560) ==> (vt - 2) / 456 == vt / 456 || (vt - 2)
                    % 456 == 455) by (nonlinear_arith);
                assert((vt % 2 == 0 && vt % 456 != 0 && 0 < vt < 4560) ==> (vt - 2) / 456 == vt
                    / 456) by (nonlinear_arith);
            }
        }
        proof {
            assert(self@ =~= old(self)@.spec_tick_vblank());
        }
    }

    /// One 2-dot tick in mode 3; see `PpuView::spec_tick_draw`.
    #[verifier::rlimit(100)]
    fn tick_draw(&mut self)
        requires
            old(self)@.wf_core(),
            old(self)@.spec_mode() == Mode::DRAW,
            old(self)@.ly <= 143,
        ensures
            final(self)@ == old(self)@.spec_tick_draw(),
            final(self)@.wf_core(),
            final(self)@.spec_mode() == Mode::DRAW || final(self)@.spec_mode() == Mode::HBLANK,
            final(self)@.ly == old(self)@.ly,
            final(self)@.vblank_timeline == old(self)@.vblank_timeline,
            final(self)@.window_line_counter == old(self)@.window_line_counter,
            final(self)@.scanline_timeline == old(self)@.scanline_timeline,
    {
        proof {
            reveal(PpuView::spec_tick_draw);
        }
        if (self.control >> SPRITES_ENABLED) & 0x1 == 1 {
            self.sprite_pixel_fetcher();
        }
        if self.fs.current_sprite.is_none() {
            self.background_pixel_fetcher();
            let stop = self.draw_dot();
            if !stop {
                let _ = self.draw_dot();
            }
        }
        proof {
            assert(self@ == old(self)@.spec_tick_draw());
        }
    }

    /// One 2-dot tick; see `PpuView::spec_tick`.
    #[verifier::rlimit(100)]
    fn tick(&mut self)
        requires
            old(self)@.wf(),
        ensures
            final(self)@ == old(self)@.spec_tick(),
            final(self)@.wf(),
    {
        proof {
            reveal(PpuView::spec_tick);
        }
        self.scanline_timeline = self.scanline_timeline.wrapping_add(2);
        if self.wy == self.ly {
            self.window_in_frame = true;
        }
        let ghost p1: PpuView = self@;
        match self.get_mode() {
            Mode::OAMSCAN => {
                self.tick_oamscan();
                proof {
                    assert(self@ == p1.spec_tick_oamscan());
                }
            },
            Mode::DRAW => {
                self.tick_draw();
                proof {
                    assert(self@ == p1.spec_tick_draw());
                }
            },
            Mode::HBLANK => {
                self.tick_hblank();
                proof {
                    assert(self@ == p1.spec_tick_hblank());
                }
            },
            Mode::VBLANK => {
                self.tick_vblank();
                proof {
                    assert(self@ == p1.spec_tick_vblank());
                }
            },
        }
        let ghost p2: PpuView = self@;
        proof {
            assert(p2 == match p1.spec_mode() {
                Mode::OAMSCAN => p1.spec_tick_oamscan(),
                Mode::DRAW => p1.spec_tick_draw(),
                Mode::HBLANK => p1.spec_tick_hblank(),
                Mode::VBLANK => p1.spec_tick_vblank(),
            });
        }
        if self.scanline_timeline == 456 {
            self.scanline_timeline = 0;
        }
        let ghost p3: PpuView = self@;
        proof {
            assert(p3 == if p2.scanline_timeline == 456 {
                PpuView { scanline_timeline: 0, ..p2 }
            } else {
                p2
            });
        }
        let ghost s3: u8 = self.stat;
        let bit: u8 = if self.ly == self.lyc {
            4
        } else {
            0
        };
        self.stat = (self.stat & 0xFB) | bit;
        proof {
            assert(((s3 & 0xFB) | bit) & 0x3 == s3 & 0x3) by (bit_vector)
                requires
                    bit == 0 || bit == 4,
            ;
            assert(self@ == (PpuView { stat: (p3.stat & 0xFB) | bit, ..p3 }));
            assert(self@ == old(self)@.spec_tick());
        }
    }

    /// Advance the PPU by one machine cycle: two 2-dot ticks while the
    /// LCD is enabled.
    pub fn update(&mut self)
        requires
            old(self)@.wf(),
        ensures
            final(self)@ == old(self)@.spec_update(),
            final(self)@.wf(),
    {
        proof {
            reveal(PpuView::spec_update);
        }
        if (self.control >> LCD_ENABLED) & 0x1 == 1 {
            self.tick();
            self.tick();
        }
    }

    /// Write an OAM byte directly, bypassing the mode lockout; only the
    /// OAM DMA transfer uses this path.
    pub fn write_oam_dma(&mut self, addr: u16, val: u8)
        requires
            addr < 160,
            old(self)@.wf(),
        ensures
            final(self)@ == (PpuView {
                oam: old(self)@.oam.update(addr as int, val),
                ..old(self)@
            }),
            final(self)@.wf(),
    {
        self.oam.set(addr as usize, val);
        proof {
            assert(self@ =~= (PpuView {
                oam: old(self)@.oam.update(addr as int, val),
                ..old(self)@
            }));
        }
    }
}

/// The power-on PPU state: every register, counter, flag and buffer
/// cleared, STAT mode 0 (H-blank).
pub open spec fn spec_power_on_ppu() -> PpuView {
    PpuView {
        lcd: Seq::new(23040, |i: int| 0u8),
        vram: Seq::new(0x2000, |i: int| 0u8),
        oam: Seq::new(160, |i: int| 0u8),
        ly: 0,
        lyc: 0,
        control: 0,
        stat: 0,
        scy: 0,
        scx: 0,
        wy: 0,
        wx: 0,
        bgp: 0,
        obp0: 0,
        obp1: 0,
        vblank_irq_triggered: false,
        rendered_frame: false,
        scanline_timeline: 0,
        vblank_timeline: 0,
        window_in_frame: false,
        window_line_counter: 0,
        rendered_window_on_scanline: false,
        fs: FetchState::spec_init(),
        sprite_fifo: Seq::empty(),
        background_fifo: Seq::empty(),
        sprite_buffer: Seq::empty(),
    }
}

impl Default for PPU {
    /// The power-on PPU: zeroed registers, buffers and counters, STAT mode
    /// 0 (H-blank).
    fn default() -> (p: PPU)
        ensures
            p@ == spec_power_on_ppu(),
            p@.wf(),
    {
        let p = PPU {
            lcd: zero_bytes(23040),
            vram: zero_bytes(0x2000),
            oam: zero_bytes(160),
            ly: 0,
            lyc: 0,
            control: 0,
            stat: 0,
            scy: 0,
            scx: 0,
            wy: 0,
            wx: 0,
            bgp: 0,
            obp0: 0,
            obp1: 0,
            vblank_irq_triggered: false,
            rendered_frame: false,
            scanline_timeline: 0,
            vblank_timeline: 0,
            window_in_frame: false,
            window_line_counter: 0,
            rendered_window_on_scanline: false,
            fs: FetchState::init(),
            sprite_fifo: Vec::new(),
            background_fifo: Vec::new(),
            sprite_buffer: Vec::new(),
        };
        proof {
            assert(0u8 & 0x3 == 0) by (bit_vector);
            assert(p@.spec_mode() == Mode::HBLANK);
            assert(p@.lcd =~= spec_power_on_ppu().lcd);
            assert(p@.vram =~= spec_power_on_ppu().vram);
            assert(p@.oam =~= spec_power_on_ppu().oam);
            assert(p@ =~= spec_power_on_ppu());
            assert(p@.wf_core());
        }
        p
    }
}

} // verus!
