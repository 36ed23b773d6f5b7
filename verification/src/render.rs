//! The scanline rasteriser: what one line of the picture is, as pure
//! functions of the pipeline's state, and the two renderers that draw it.
use vstd::prelude::*;
use crate::gpu::{GPU, GpuView, GrayShades, Attr, rgb555};
use crate::frame::{FRAME_BYTES, ROW_BYTES};

verus! {

// ---------------------------------------------------------------------------
// Tiles

/// The byte at `addr` in bank 0 of video RAM; 0 outside of it.
pub open spec fn vram0(v: GpuView, addr: u16) -> u8 {
    if 0x8000 <= addr <= 0x9fff {
        v.ram[addr - 0x8000]
    } else {
        0
    }
}

/// The byte at `addr` in bank 1 of video RAM; 0 outside of it.
pub open spec fn vram1(v: GpuView, addr: u16) -> u8 {
    if 0x8000 <= addr <= 0x9fff {
        v.ram[addr - 0x6000]
    } else {
        0
    }
}

/// The byte at `addr` in the bank that `bank1` tells.
pub open spec fn vram(v: GpuView, bank1: bool, addr: u16) -> u8 {
    if bank1 {
        vram1(v, addr)
    } else {
        vram0(v, addr)
    }
}

/// The first screen column of the window: WX minus 7, modulo 256.
pub open spec fn window_left(v: GpuView) -> u8 {
    v.wx.wrapping_sub(7)
}

/// Whether screen column `sx` of the present line shows the window: the
/// window is enabled, the line is at or below WY and the column is at or
/// right of the window's first column.
pub open spec fn in_window(v: GpuView, sx: u8) -> bool {
    v.lcdc.has(0x20) && v.ly >= v.wy && sx >= window_left(v)
}

/// For screen column `sx` of the present line: the column and the row
/// inside the tile that is shown there, and the address of that tile's
/// entry in its tile map.
///
/// The window counts from its own top-left corner; the background is
/// scrolled by SCX and SCY and wraps at 256. Bit 6 of LCDC (window) or bit
/// 3 (background) puts the tile map at 0x9C00 instead of 0x9800.
pub open spec fn tile_location(v: GpuView, sx: u8) -> (u8, u8, u16) {
    let x: u8 = if in_window(v, sx) {
        (sx - window_left(v)) as u8
    } else {
        v.scx.wrapping_add(sx)
    };
    let y: u8 = if in_window(v, sx) {
        (v.ly - v.wy) as u8
    } else {
        v.scy.wrapping_add(v.ly)
    };
    let high = if in_window(v, sx) {
        v.lcdc.has(0x40)
    } else {
        v.lcdc.has(0x08)
    };
    let base: int = if high {
        0x9c00
    } else {
        0x9800
    };
    ((x % 8) as u8, (y % 8) as u8, (base + (y / 8) * 32 + x / 8) as u16)
}

/// The address of the data of the tile whose map entry is at `tmap_addr`:
/// with bit 4 of LCDC the entry is an unsigned tile number from 0x8000,
/// else a signed one around 0x9000. A tile takes 16 bytes.
pub open spec fn tile_addr(v: GpuView, tmap_addr: u16) -> u16 {
    let t = vram0(v, tmap_addr);
    if v.lcdc.has(0x10) {
        (0x8000 + t * 16) as u16
    } else if t < 128 {
        (0x9000 + t * 16) as u16
    } else {
        (0x8800 + (t - 128) * 16) as u16
    }
}

/// The colour number (0 to 3) of column `tx` of a tile row: bit `7 - tx`
/// of the first byte is its low bit, that of the second byte its high bit.
pub open spec fn color_num(tx: u8, b1: u8, b2: u8) -> u8 {
    ((if (0x80u8 >> tx) & b1 != 0 {
        1int
    } else {
        0int
    }) + (if (0x80u8 >> tx) & b2 != 0 {
        2int
    } else {
        0int
    })) as u8
}

/// The shade that a monochrome palette register gives colour number `i`.
pub open spec fn shade_of(palette: u8, i: u8) -> GrayShades {
    let s = (palette >> (i * 2) as u8) & 0x03;
    if s == 0 {
        GrayShades::White
    } else if s == 1 {
        GrayShades::Light
    } else if s == 2 {
        GrayShades::Dark
    } else {
        GrayShades::Blank
    }
}

/// The fixed stretch of a five-bit colour to three bytes:
/// `((13r + 2g + b) / 2, (3g + b) * 2, (3r + 2g + 11b) / 2)`.
pub open spec fn stretch(c: (u8, u8, u8)) -> (u8, u8, u8) {
    let (r, g, b) = c;
    (((r * 13 + g * 2 + b) / 2) as u8, ((g * 3 + b) * 2) as u8, ((r * 3 + g * 2 + b * 11) / 2) as u8)
}

/// Colour `c` of palette `p` in a palette memory, stretched.
pub open spec fn palette_color(mem: Seq<u8>, p: int, c: int) -> (u8, u8, u8) {
    stretch(rgb555(mem[p * 8 + c * 2], mem[p * 8 + c * 2 + 1]))
}

/// Channel `ch` (0 red, 1 green, 2 blue) of a colour.
pub open spec fn channel(c: (u8, u8, u8), ch: int) -> u8 {
    if ch == 0 {
        c.0
    } else if ch == 1 {
        c.1
    } else {
        c.2
    }
}

// ---------------------------------------------------------------------------
// The background of a line

/// Monochrome: the colour number of the background at screen column `sx`.
pub open spec fn mono_bg_id(v: GpuView, sx: u8) -> u8 {
    let (tx, ty, tmap) = tile_location(v, sx);
    let row = (tile_addr(v, tmap) + ty * 2) as u16;
    color_num(tx, vram0(v, row), vram0(v, (row + 1) as u16))
}

/// Monochrome: the line after the background pass. With bit 0 of LCDC
/// clear the background is skipped and the line stays as it was.
pub open spec fn mono_bg_rgb(v: GpuView, row0: Seq<u8>) -> Seq<u8> {
    Seq::new(
        ROW_BYTES as nat,
        |k: int|
            if v.lcdc.has(0x01) {
                shade_of(v.bgp, mono_bg_id(v, (k / 3) as u8)).level()
            } else {
                row0[k]
            },
    )
}

/// Monochrome: for each column, whether the background drew colour 0.
pub open spec fn mono_bg_trans(v: GpuView) -> Seq<bool> {
    Seq::new(160, |x: int| v.lcdc.has(0x01) && mono_bg_id(v, x as u8) == 0)
}

/// Colour: the attributes of the background tile at screen column `sx`,
/// read from bank 1 at the tile's map entry.
pub open spec fn cgb_bg_attr(v: GpuView, sx: u8) -> Attr {
    Attr::of(vram1(v, tile_location(v, sx).2))
}

/// Colour: the colour number of the background at screen column `sx`,
/// with the tile's bank and its two flips taken into account.
pub open spec fn cgb_bg_id(v: GpuView, sx: u8) -> u8 {
    let (tx, ty, tmap) = tile_location(v, sx);
    let attr = cgb_bg_attr(v, sx);
    let fx: u8 = if attr.flip_x {
        (7 - tx) as u8
    } else {
        tx
    };
    let fy: u8 = if attr.flip_y {
        (7 - ty) as u8
    } else {
        ty
    };
    let row = (tile_addr(v, tmap) + fy * 2) as u16;
    color_num(fx, vram(v, attr.bank, row), vram(v, attr.bank, (row + 1) as u16))
}

/// Colour: the line after the background pass.
pub open spec fn cgb_bg_rgb(v: GpuView) -> Seq<u8> {
    Seq::new(
        ROW_BYTES as nat,
        |k: int|
            channel(
                palette_color(
                    v.bgpd,
                    cgb_bg_attr(v, (k / 3) as u8).cbg_pal_num as int,
                    cgb_bg_id(v, (k / 3) as u8) as int,
                ),
                k % 3,
            ),
    )
}

/// Colour: the background's colour number in each column.
pub open spec fn cgb_bg_ids(v: GpuView) -> Seq<u8> {
    Seq::new(160, |x: int| cgb_bg_id(v, x as u8))
}

/// Colour: for each column, whether the background tile claims priority.
pub open spec fn cgb_bg_prio(v: GpuView) -> Seq<bool> {
    Seq::new(160, |x: int| cgb_bg_attr(v, x as u8).bw_over_obj)
}

// ---------------------------------------------------------------------------
// Sprites

/// One entry of the sprite attribute table, positions already turned into
/// screen coordinates.
pub struct Sprite {
    /// The screen row of the sprite's top: byte 0 minus 16, modulo 256.
    pub sy: u8,
    /// The screen column of the sprite's left: byte 1 minus 8, modulo 256.
    pub sx: u8,
    /// The tile number; with 16-row sprites its bit 0 is dropped.
    pub t_num: u8,
    pub attr: Attr,
}

/// The height of the sprites: 16 rows with bit 2 of LCDC, else 8.
pub open spec fn sprite_height(v: GpuView) -> u8 {
    if v.lcdc.has(0x04) {
        16
    } else {
        8
    }
}

/// Entry `i` (0 to 39) of the sprite attribute table.
pub open spec fn sprite(v: GpuView, i: int) -> Sprite {
    Sprite {
        sy: v.oam[i * 4].wrapping_sub(16),
        sx: v.oam[i * 4 + 1].wrapping_sub(8),
        t_num: if v.lcdc.has(0x04) {
            (v.oam[i * 4 + 2] / 2 * 2) as u8
        } else {
            v.oam[i * 4 + 2]
        },
        attr: Attr::of(v.oam[i * 4 + 3]),
    }
}

/// Whether a sprite of height `h` is on the present line and can be on the
/// screen: LY is among its rows, counted modulo 256 from its top, and its
/// left is not in the columns 160 to 248.
pub open spec fn sprite_visible(v: GpuView, s: Sprite, h: u8) -> bool {
    &&& if s.sy <= 256 - h {
        s.sy <= v.ly < s.sy + h
    } else {
        v.ly < s.sy.wrapping_add(h)
    }
    &&& !(160 <= s.sx <= 248)
}

/// The address of the tile row of a sprite that the present line shows.
pub open spec fn sprite_row_addr(v: GpuView, s: Sprite) -> u16 {
    let oty = v.ly.wrapping_sub(s.sy);
    let ty = if s.attr.flip_y {
        ((sprite_height(v) - 1) as u8).wrapping_sub(oty)
    } else {
        oty
    };
    (0x8000 + s.t_num * 16 + ty * 2) as u16
}

/// Whether screen column `px` is one of the eight columns of the sprite.
pub open spec fn covers(s: Sprite, px: u8) -> bool {
    px.wrapping_sub(s.sx) < 8
}

/// The colour number a sprite has at screen column `px`; `banked` tells
/// whether the sprite's bank attribute is honoured.
pub open spec fn sprite_color(v: GpuView, s: Sprite, px: u8, banked: bool) -> u8 {
    let x = px.wrapping_sub(s.sx);
    let tx: u8 = if s.attr.flip_x {
        (7 - x) as u8
    } else {
        x
    };
    let row = sprite_row_addr(v, s);
    let bank1 = banked && s.attr.bank;
    color_num(tx, vram(v, bank1, row), vram(v, bank1, (row + 1) as u16))
}

/// Whether a list is in ascending order.
pub open spec fn sorted(list: Seq<u8>) -> bool {
    forall|i: int, j: int| 0 <= i <= j < list.len() ==> list[i] <= list[j]
}

/// How many of the first `n` elements of `list` are at most `v`.
pub open spec fn count_le(list: Seq<u8>, v: u8, n: int) -> int
    decreases n,
{
    if n <= 0 {
        0
    } else {
        count_le(list, v, n - 1) + (if list[n - 1] <= v {
            1int
        } else {
            0int
        })
    }
}

/// Where `v` goes in the ascending list: behind every element that is at
/// most `v`.
pub open spec fn insert_at(list: Seq<u8>, v: u8) -> int {
    count_le(list, v, list.len() as int)
}

/// Monochrome: whether a sprite at column `sx` is hidden at screen column
/// `px` by a sprite drawn before it. `had` holds the columns of the sprites
/// drawn before, ascending; the one that matters is the nearest at or left
/// of `sx`, and it hides its own eight columns.
pub open spec fn mono_blocked(had: Seq<u8>, sx: u8, px: u8) -> bool {
    let si = insert_at(had, sx);
    si > 0 && had[si - 1].wrapping_add(7) >= px
}

/// Monochrome: the shade a sprite paints at screen column `px`, if it
/// paints there: the column is one of its own and on the screen, no earlier
/// sprite hides it, the background does not go over it (the sprite's
/// priority bit with a background colour other than 0), and its colour
/// number is not 0, which is transparent.
pub open spec fn mono_paints(v: GpuView, s: Sprite, px: u8, had: Seq<u8>, trans: Seq<bool>)
    -> Option<u8> {
    if covers(s, px) && px < 160 && !mono_blocked(had, s.sx, px) && !(s.attr.bw_over_obj
        && !trans[px as int]) && sprite_color(v, s, px, false) != 0 {
        Some(
            shade_of(
                if s.attr.pal_num == 1 {
                    v.obp1
                } else {
                    v.obp0
                },
                sprite_color(v, s, px, false),
            ).level(),
        )
    } else {
        None
    }
}

/// Monochrome: the line after a sprite has painted its columns whose
/// offset from the sprite's left is below `upto`.
pub open spec fn mono_sprite_row(
    v: GpuView,
    s: Sprite,
    had: Seq<u8>,
    trans: Seq<bool>,
    rgb: Seq<u8>,
    upto: int,
) -> Seq<u8> {
    Seq::new(
        ROW_BYTES as nat,
        |k: int|
            if ((k / 3) as u8).wrapping_sub(s.sx) < upto {
                match mono_paints(v, s, (k / 3) as u8, had, trans) {
                    Some(g) => g,
                    None => rgb[k],
                }
            } else {
                rgb[k]
            },
    )
}

/// Monochrome: the line and the list of drawn columns after the first `n`
/// entries of the sprite attribute table have been gone through, in table
/// order.
pub open spec fn mono_sprites(v: GpuView, n: int, trans: Seq<bool>, rgb: Seq<u8>) -> (
    Seq<u8>,
    Seq<u8>,
)
    decreases n,
{
    if n <= 0 {
        (rgb, Seq::empty())
    } else {
        let (line, had) = mono_sprites(v, n - 1, trans, rgb);
        let s = sprite(v, n - 1);
        if sprite_visible(v, s, sprite_height(v)) {
            (mono_sprite_row(v, s, had, trans, line, 8), had.insert(insert_at(had, s.sx), s.sx))
        } else {
            (line, had)
        }
    }
}

/// Monochrome: the present line, drawn over what the framebuffer held.
pub open spec fn mono_line(v: GpuView, row0: Seq<u8>) -> Seq<u8> {
    if v.lcdc.has(0x02) {
        mono_sprites(v, 40, mono_bg_trans(v), mono_bg_rgb(v, row0)).0
    } else {
        mono_bg_rgb(v, row0)
    }
}

/// Colour: whether a sprite paints at screen column `px`: the column is
/// one of its own and on the screen, no earlier sprite has painted there,
/// its colour number is not 0, and, with bit 0 of LCDC set, the background
/// does not go over it (the tile's priority bit, or the sprite's with a
/// background colour other than 0).
pub open spec fn cgb_paints(
    v: GpuView,
    s: Sprite,
    px: u8,
    drawn: Seq<bool>,
    ids: Seq<u8>,
    prio: Seq<bool>,
) -> bool {
    covers(s, px) && px < 160 && !drawn[px as int] && sprite_color(v, s, px, true) != 0 && !(
    v.lcdc.has(0x01) && (prio[px as int] || (s.attr.bw_over_obj && ids[px as int] != 0)))
}

/// Colour: the colour a sprite paints with at screen column `px`.
pub open spec fn cgb_sprite_rgb(v: GpuView, s: Sprite, px: u8) -> (u8, u8, u8) {
    palette_color(v.obpd, s.attr.pal_num as int, sprite_color(v, s, px, true) as int)
}

/// Colour: the line after a sprite has painted its columns whose offset
/// from the sprite's left is below `upto`.
pub open spec fn cgb_sprite_row(
    v: GpuView,
    s: Sprite,
    drawn: Seq<bool>,
    ids: Seq<u8>,
    prio: Seq<bool>,
    rgb: Seq<u8>,
    upto: int,
) -> Seq<u8> {
    Seq::new(
        ROW_BYTES as nat,
        |k: int|
            if ((k / 3) as u8).wrapping_sub(s.sx) < upto && cgb_paints(
                v,
                s,
                (k / 3) as u8,
                drawn,
                ids,
                prio,
            ) {
                channel(cgb_sprite_rgb(v, s, (k / 3) as u8), k % 3)
            } else {
                rgb[k]
            },
    )
}

/// Colour: the columns painted by sprites, after a sprite has painted its
/// columns whose offset from the sprite's left is below `upto`.
pub open spec fn cgb_sprite_drawn(
    v: GpuView,
    s: Sprite,
    drawn: Seq<bool>,
    ids: Seq<u8>,
    prio: Seq<bool>,
    upto: int,
) -> Seq<bool> {
    Seq::new(
        160,
        |x: int|
            drawn[x] || ((x as u8).wrapping_sub(s.sx) < upto && cgb_paints(
                v,
                s,
                x as u8,
                drawn,
                ids,
                prio,
            )),
    )
}

/// Colour: the line and the painted columns after the first `n` entries of
/// the sprite attribute table have been gone through, in table order. The
/// first sprite to paint a column keeps it.
pub open spec fn cgb_sprites(v: GpuView, n: int, ids: Seq<u8>, prio: Seq<bool>, rgb: Seq<u8>)
    -> (Seq<u8>, Seq<bool>)
    decreases n,
{
    if n <= 0 {
        (rgb, Seq::new(160, |x: int| false))
    } else {
        let (line, drawn) = cgb_sprites(v, n - 1, ids, prio, rgb);
        let s = sprite(v, n - 1);
        if sprite_visible(v, s, sprite_height(v)) {
            (
                cgb_sprite_row(v, s, drawn, ids, prio, line, 8),
                cgb_sprite_drawn(v, s, drawn, ids, prio, 8),
            )
        } else {
            (line, drawn)
        }
    }
}

/// Colour: the present line.
pub open spec fn cgb_line(v: GpuView) -> Seq<u8> {
    if v.lcdc.has(0x02) {
        cgb_sprites(v, 40, cgb_bg_ids(v), cgb_bg_prio(v), cgb_bg_rgb(v)).0
    } else {
        cgb_bg_rgb(v)
    }
}

/// The present line: the colour renderer on the colour model, else the
/// monochrome one, which draws over the row `row0` the framebuffer held.
pub open spec fn line(v: GpuView, row0: Seq<u8>) -> Seq<u8> {
    if v.is_cgb() {
        cgb_line(v)
    } else {
        mono_line(v, row0)
    }
}

/// Row `ly` of a framebuffer.
pub open spec fn row_of(data: Seq<u8>, ly: int) -> Seq<u8> {
    Seq::new(ROW_BYTES as nat, |k: int| data[ly * ROW_BYTES + k])
}

/// A framebuffer with row `ly` replaced.
pub open spec fn with_row(data: Seq<u8>, ly: int, row: Seq<u8>) -> Seq<u8> {
    Seq::new(
        FRAME_BYTES as nat,
        |k: int|
            if ly * ROW_BYTES <= k < ly * ROW_BYTES + ROW_BYTES {
                row[k - ly * ROW_BYTES]
            } else {
                data[k]
            },
    )
}

/// The pipeline after the present line has been rendered into the
/// framebuffer. Only the lines 0 to 143 are visible.
#[verifier::opaque]
pub open spec fn rendered(v: GpuView) -> GpuView {
    if v.ly < 144 {
        GpuView { data: with_row(v.data, v.ly as int, line(v, row_of(v.data, v.ly as int))), ..v }
    } else {
        v
    }
}

// ---------------------------------------------------------------------------
// The sorted list of drawn sprites

/// With the elements at most `v` before position `p` and the larger ones
/// from `p` on, the count over the first `n` elements is `n` or `p`,
/// whichever is smaller.
proof fn lemma_count_le(list: Seq<u8>, v: u8, p: int, n: int)
    requires
        0 <= p <= list.len(),
        0 <= n <= list.len(),
        forall|i: int| 0 <= i < p ==> list[i] <= v,
        forall|i: int| p <= i < list.len() ==> list[i] > v,
    ensures
        count_le(list, v, n) == (if n <= p {
            n
        } else {
            p
        }),
    decreases n,
{
    if n > 0 {
        lemma_count_le(list, v, p, n - 1);
    }
}

/// Finds by bisection where `v` goes in the ascending `list`: behind every
/// element that is at most `v`.
pub fn bs_insert_at(list: &Vec<u8>, v: u8) -> (r: usize)
    requires
        sorted(list@),
    ensures
        r == insert_at(list@, v),
        r <= list.len(),
        forall|i: int| 0 <= i < r ==> list[i] <= v,
        forall|i: int| r <= i < list.len() ==> list[i] > v,
{
    let mut l: usize = 0;
    let mut r: usize = list.len();
    while l < r
        invariant
            l <= r <= list.len(),
            sorted(list@),
            forall|i: int| 0 <= i < l ==> list[i] <= v,
            forall|i: int| r <= i < list.len() ==> list[i] > v,
        decreases r - l,
    {
        let c = l + (r - l) / 2;
        if v >= list[c] {
            l = c + 1;
        } else {
            r = c;
        }
    }
    proof {
        lemma_count_le(list@, v, l as int, list.len() as int);
    }
    l
}

/// An ascending list stays ascending when `v` is inserted at position `p`
/// with the elements at most `v` before `p` and the larger ones from `p`
/// on.
proof fn lemma_insert_sorted(list: Seq<u8>, v: u8, p: int)
    requires
        sorted(list),
        0 <= p <= list.len(),
        forall|i: int| 0 <= i < p ==> list[i] <= v,
        forall|i: int| p <= i < list.len() ==> list[i] > v,
    ensures
        sorted(list.insert(p, v)),
{
    let out = list.insert(p, v);
    assert forall|i: int, j: int| 0 <= i <= j < out.len() implies out[i] <= out[j] by {
        if i < p {
            assert(out[i] == list[i]);
        } else if i > p {
            assert(out[i] == list[i - 1]);
        }
        if j < p {
            assert(out[j] == list[j]);
        } else if j > p {
            assert(out[j] == list[j - 1]);
        }
    }
}

// ---------------------------------------------------------------------------
// What both renderers share

pub fn _tile_location(gpu: &GPU, sx: u8) -> (r: (u8, u8, u16))
    ensures
        r == tile_location(gpu@, sx),
        r.0 < 8,
        r.1 < 8,
        0x9800 <= r.2 <= 0x9fff,
{
    let wx = gpu.wx.wrapping_sub(7);
    let in_win = gpu.lcdc.window_enable() && gpu.ly >= gpu.wy && sx >= wx;
    let x: u8;
    let y: u8;
    let tmap_base: u16;
    if in_win {
        x = sx - wx;
        y = gpu.ly - gpu.wy;
        tmap_base = if gpu.lcdc.win_tm_sel() { 0x9c00 } else { 0x9800 };
    } else {
        x = gpu.scx.wrapping_add(sx);
        y = gpu.scy.wrapping_add(gpu.ly);
        tmap_base = if gpu.lcdc.bg_tm_sel() { 0x9c00 } else { 0x9800 };
    }
    let t_row = y / 8;
    let t_col = x / 8;
    (x % 8, y % 8, tmap_base + t_row as u16 * 32 + t_col as u16)
}

pub fn _tile_addr(gpu: &GPU, tmap_addr: u16) -> (r: u16)
    ensures
        r == tile_addr(gpu@, tmap_addr),
        0x8000 <= r <= 0x97f0,
{
    let t_num = gpu.get_ram0(tmap_addr);
    if gpu.lcdc.td_sel() {
        0x8000 + t_num as u16 * 16
    } else if t_num < 128 {
        0x9000 + t_num as u16 * 16
    } else {
        0x8800 + (t_num as u16 - 128) * 16
    }
}

pub fn _cal_color_num(tx: u8, b1: u8, b2: u8) -> (r: u8)
    requires
        tx < 8,
    ensures
        r == color_num(tx, b1, b2),
        r < 4,
{
    let color_l: u8 = if (0x80u8 >> tx) & b1 != 0 { 0x01 } else { 0x00 };
    let color_h: u8 = if (0x80u8 >> tx) & b2 != 0 { 0x02 } else { 0x00 };
    color_h + color_l
}

/// Reads entry `i` of the sprite attribute table.
pub fn _oam_data(gpu: &GPU, i: usize) -> (s: Sprite)
    requires
        i < 40,
    ensures
        s == sprite(gpu@, i as int),
{
    let sy = gpu.oam[i * 4].wrapping_sub(16);
    let sx = gpu.oam[i * 4 + 1].wrapping_sub(8);
    let mut t_num = gpu.oam[i * 4 + 2];
    if gpu.lcdc.obj_h_16() {
        t_num = t_num / 2 * 2;
    }
    let attr = Attr::from(gpu.oam[i * 4 + 3]);
    Sprite { sy, sx, t_num, attr }
}

pub fn _is_draw_sprite(gpu: &GPU, s: &Sprite, height: u8) -> (b: bool)
    ensures
        b == sprite_visible(gpu@, *s, height),
{
    if s.sy as u16 <= 256 - height as u16 {
        if gpu.ly < s.sy || gpu.ly as u16 >= s.sy as u16 + height as u16 {
            return false;
        }
    } else if gpu.ly >= s.sy.wrapping_add(height) {
        return false;
    }
    if s.sx >= 160 && s.sx <= 0xff - 7 {
        return false;
    }
    true
}

pub fn _sprite_height(gpu: &GPU) -> (h: u8)
    ensures
        h == sprite_height(gpu@),
{
    if gpu.lcdc.obj_h_16() {
        16
    } else {
        8
    }
}

pub fn _enable_sprite(gpu: &GPU) -> (b: bool)
    ensures
        b == gpu@.lcdc.has(0x02),
{
    gpu.lcdc.obj_enable()
}

/// The two bytes of the tile row of a sprite that the present line shows.
fn sprite_row(gpu: &GPU, s: &Sprite, height: u8, banked: bool) -> (r: (u8, u8))
    requires
        height == sprite_height(gpu@),
    ensures
        r.0 == vram(gpu@, banked && s.attr.bank, sprite_row_addr(gpu@, *s)),
        r.1 == vram(gpu@, banked && s.attr.bank, (sprite_row_addr(gpu@, *s) + 1) as u16),
{
    let oty = gpu.ly.wrapping_sub(s.sy);
    let ty = if s.attr.flip_y { (height - 1).wrapping_sub(oty) } else { oty };
    let tr_addr = 0x8000 + s.t_num as u16 * 16 + ty as u16 * 2;
    if banked && s.attr.bank {
        (gpu.get_ram1(tr_addr), gpu.get_ram1(tr_addr + 1))
    } else {
        (gpu.get_ram0(tr_addr), gpu.get_ram0(tr_addr + 1))
    }
}

/// Writes the three bytes of pixel `x` of a row.
fn put_pixel(row: &mut [u8; 480], x: usize, c: (u8, u8, u8))
    requires
        x < 160,
    ensures
        forall|k: int|
            0 <= k < 480 ==> final(row)@[k] == (if k / 3 == x {
                channel(c, k % 3)
            } else {
                old(row)@[k]
            }),
{
    row[x * 3] = c.0;
    row[x * 3 + 1] = c.1;
    row[x * 3 + 2] = c.2;
}

// ---------------------------------------------------------------------------
// The monochrome renderer

/// Draws a line on the monochrome model.
pub struct GBRender {
    /// The columns of the sprites drawn so far, ascending.
    pub _has_draw: Vec<u8>,
    /// For each column, whether the background drew colour 0.
    pub _bg_trans: [bool; 160],
}

impl GBRender {
    pub fn init() -> (r: Self)
        ensures
            r._has_draw@ == Seq::<u8>::empty(),
            r._bg_trans@ == Seq::new(160, |x: int| false),
    {
        let r = GBRender { _has_draw: Vec::with_capacity(10), _bg_trans: [false;160] };
        assert(r._bg_trans@ =~= Seq::new(160, |x: int| false));
        r
    }

    /// The shade that palette register `bgp` gives colour number `i`.
    pub fn _get_gray_shades(&self, bgp: u8, i: u8) -> (r: GrayShades)
        requires
            i < 4,
        ensures
            r == shade_of(bgp, i),
    {
        match (bgp >> (i * 2)) & 0x03 {
            0x00 => GrayShades::White,
            0x01 => GrayShades::Light,
            0x02 => GrayShades::Dark,
            _ => GrayShades::Blank,
        }
    }

    /// Fills pixel `x` of the row with the gray level `g`.
    pub fn _set_gray(&self, row: &mut [u8; 480], x: usize, g: u8)
        requires
            x < 160,
        ensures
            forall|k: int|
                0 <= k < 480 ==> final(row)@[k] == (if k / 3 == x {
                    g
                } else {
                    old(row)@[k]
                }),
    {
        put_pixel(row, x, (g, g, g));
    }

    /// Draws the background of the present line.
    pub fn draw_bg(&mut self, gpu: &GPU, row: &mut [u8; 480])
        ensures
            final(row)@ == mono_bg_rgb(gpu@, old(row)@),
            final(self)._bg_trans@ == mono_bg_trans(gpu@),
            final(self)._has_draw == old(self)._has_draw,
    {
        if !gpu.lcdc.bg_win_pri() {
            let mut x: usize = 0;
            while x < 160
                invariant
                    x <= 160,
                    forall|k: int| 0 <= k < x ==> !self._bg_trans@[k],
                    self._has_draw == old(self)._has_draw,
                decreases 160 - x,
            {
                self._bg_trans[x] = false;
                x = x + 1;
            }
            assert(row@ =~= mono_bg_rgb(gpu@, row@));
            assert(self._bg_trans@ =~= mono_bg_trans(gpu@));
            return ;
        }
        let ghost row0 = row@;
        let mut sx: usize = 0;
        while sx < 160
            invariant
                sx <= 160,
                gpu@.lcdc.has(0x01),
                forall|k: int| 0 <= k < 3 * sx ==> row@[k] == mono_bg_rgb(gpu@, row0)[k],
                forall|x: int| 0 <= x < sx ==> self._bg_trans@[x] == mono_bg_trans(gpu@)[x],
                self._has_draw == old(self)._has_draw,
            decreases 160 - sx,
        {
            let (tx, ty, tmap_addr) = _tile_location(gpu, sx as u8);
            let tile_addr = _tile_addr(gpu, tmap_addr);
            let tr_addr = tile_addr + ty as u16 * 2;
            let tr0 = gpu.get_ram0(tr_addr);
            let tr1 = gpu.get_ram0(tr_addr + 1);
            let color_num = _cal_color_num(tx, tr0, tr1);
            self._bg_trans[sx] = color_num == 0;
            let gray = self._get_gray_shades(gpu.bgp, color_num).value();
            self._set_gray(row, sx, gray);
            sx = sx + 1;
        }
        assert(row@ =~= mono_bg_rgb(gpu@, row0));
        assert(self._bg_trans@ =~= mono_bg_trans(gpu@));
    }

    /// Draws the sprites of the present line, in table order.
    pub fn draw_sprites(&mut self, gpu: &GPU, row: &mut [u8; 480])
        ensures
            final(row)@ == (if gpu@.lcdc.has(0x02) {
                mono_sprites(gpu@, 40, old(self)._bg_trans@, old(row)@).0
            } else {
                old(row)@
            }),
    {
        if !_enable_sprite(gpu) {
            return ;
        }
        self._has_draw.clear();
        let height = _sprite_height(gpu);
        let ghost rgb0 = row@;
        let ghost trans = self._bg_trans@;
        let mut i: usize = 0;
        while i < 40
            invariant
                i <= 40,
                height == sprite_height(gpu@),
                self._bg_trans@ == trans,
                sorted(self._has_draw@),
                (row@, self._has_draw@) == mono_sprites(gpu@, i as int, trans, rgb0),
            decreases 40 - i,
        {
            let s = _oam_data(gpu, i);
            if _is_draw_sprite(gpu, &s, height) {
                let (tr0, tr1) = sprite_row(gpu, &s, height, false);
                let si = bs_insert_at(&self._has_draw, s.sx);
                let ghost had = self._has_draw@;
                let ghost line = row@;
                let mut x: u8 = 0;
                assert(row@ =~= mono_sprite_row(gpu@, s, had, trans, line, 0));
                while x < 8
                    invariant
                        x <= 8,
                        self._bg_trans@ == trans,
                        self._has_draw@ == had,
                        si == insert_at(had, s.sx),
                        si <= had.len(),
                        tr0 == vram(gpu@, false, sprite_row_addr(gpu@, s)),
                        tr1 == vram(gpu@, false, (sprite_row_addr(gpu@, s) + 1) as u16),
                        row@ == mono_sprite_row(gpu@, s, had, trans, line, x as int),
                    decreases 8 - x,
                {
                    let px = s.sx.wrapping_add(x);
                    let ghost before = row@;
                    if px < 160 {
                        let hidden = si > 0 && self._has_draw[si - 1].wrapping_add(7) >= px;
                        if !hidden && !(s.attr.bw_over_obj && !self._bg_trans[px as usize]) {
                            let tx = if s.attr.flip_x { 7 - x } else { x };
                            let color_num = _cal_color_num(tx, tr0, tr1);
                            if color_num != 0 {
                                let palette = if s.attr.pal_num == 1 { gpu.obp1 } else { gpu.obp0 };
                                let gray = self._get_gray_shades(palette, color_num).value();
                                self._set_gray(row, px as usize, gray);
                            }
                        }
                    }
                    proof {
                        assert forall|k: int| 0 <= k < 480 implies row@[k] == mono_sprite_row(
                            gpu@,
                            s,
                            had,
                            trans,
                            line,
                            x + 1,
                        )[k] by {
                            let q = (k / 3) as u8;
                            assert(q.wrapping_sub(s.sx) == x <==> q == px);
                        }
                        assert(row@ =~= mono_sprite_row(gpu@, s, had, trans, line, x + 1));
                    }
                    x = x + 1;
                }
                self._has_draw.insert(si, s.sx);
                proof {
                    lemma_insert_sorted(had, s.sx, si as int);
                }
            }
            i = i + 1;
        }
    }
}

// ---------------------------------------------------------------------------
// The colour renderer

/// Draws a line on the colour model.
pub struct CGBRender {
    /// For each column, whether the background tile claims priority.
    pub _bg_prio: [bool; 160],
    /// The background's colour number in each column.
    pub _bg_colors: [u8; 160],
    /// For each column, whether a sprite has painted it.
    pub _draws: [bool; 160],
}

impl CGBRender {
    pub fn init() -> (r: Self)
        ensures
            r._draws@ == Seq::new(160, |x: int| false),
    {
        let r = CGBRender { _bg_prio: [false;160], _bg_colors: [0;160], _draws: [false;160] };
        assert(r._draws@ =~= Seq::new(160, |x: int| false));
        r
    }

    /// Fills pixel `x` of the row with the five-bit colour `(r, g, b)`,
    /// stretched to three bytes.
    pub fn _set_rgb(&self, row: &mut [u8; 480], x: usize, r: u8, g: u8, b: u8)
        requires
            x < 160,
            r <= 0x1f,
            g <= 0x1f,
            b <= 0x1f,
        ensures
            forall|k: int|
                0 <= k < 480 ==> final(row)@[k] == (if k / 3 == x {
                    channel(stretch((r, g, b)), k % 3)
                } else {
                    old(row)@[k]
                }),
    {
        let r = r as u32;
        let g = g as u32;
        let b = b as u32;
        let lr = ((r * 13 + g * 2 + b) / 2) as u8;
        let lg = ((g * 3 + b) * 2) as u8;
        let lb = ((r * 3 + g * 2 + b * 11) / 2) as u8;
        put_pixel(row, x, (lr, lg, lb));
    }

    /// Draws the background of the present line.
    pub fn draw_bg(&mut self, gpu: &GPU, row: &mut [u8; 480])
        ensures
            final(row)@ == cgb_bg_rgb(gpu@),
            final(self)._bg_colors@ == cgb_bg_ids(gpu@),
            final(self)._bg_prio@ == cgb_bg_prio(gpu@),
            final(self)._draws == old(self)._draws,
    {
        let mut sx: usize = 0;
        while sx < 160
            invariant
                sx <= 160,
                forall|k: int| 0 <= k < 3 * sx ==> row@[k] == cgb_bg_rgb(gpu@)[k],
                forall|x: int| 0 <= x < sx ==> self._bg_colors@[x] == cgb_bg_ids(gpu@)[x],
                forall|x: int| 0 <= x < sx ==> self._bg_prio@[x] == cgb_bg_prio(gpu@)[x],
                self._draws == old(self)._draws,
            decreases 160 - sx,
        {
            let (mut tx, mut ty, tmap_addr) = _tile_location(gpu, sx as u8);
            let tile_addr = _tile_addr(gpu, tmap_addr);
            let t_attr = Attr::from(gpu.get_ram1(tmap_addr));
            if t_attr.flip_x {
                tx = 7 - tx;
            }
            if t_attr.flip_y {
                ty = 7 - ty;
            }
            let tr_addr = tile_addr + ty as u16 * 2;
            let (tr0, tr1) = if t_attr.bank {
                (gpu.get_ram1(tr_addr), gpu.get_ram1(tr_addr + 1))
            } else {
                (gpu.get_ram0(tr_addr), gpu.get_ram0(tr_addr + 1))
            };
            let color_num = _cal_color_num(tx, tr0, tr1);
            let color = gpu.bgpd.color(t_attr.cbg_pal_num, color_num as usize);
            self._set_rgb(row, sx, color.0, color.1, color.2);
            self._bg_prio[sx] = t_attr.bw_over_obj;
            self._bg_colors[sx] = color_num;
            sx = sx + 1;
        }
        assert(row@ =~= cgb_bg_rgb(gpu@));
        assert(self._bg_colors@ =~= cgb_bg_ids(gpu@));
        assert(self._bg_prio@ =~= cgb_bg_prio(gpu@));
    }

    /// Draws the sprites of the present line, in table order.
    pub fn draw_sprites(&mut self, gpu: &GPU, row: &mut [u8; 480])
        ensures
            final(row)@ == (if gpu@.lcdc.has(0x02) {
                cgb_sprites(
                    gpu@,
                    40,
                    old(self)._bg_colors@,
                    old(self)._bg_prio@,
                    old(row)@,
                ).0
            } else {
                old(row)@
            }),
    {
        if !_enable_sprite(gpu) {
            return ;
        }
        let height = _sprite_height(gpu);
        let ghost rgb0 = row@;
        let ghost ids = self._bg_colors@;
        let ghost prio = self._bg_prio@;
        let mut x: usize = 0;
        while x < 160
            invariant
                x <= 160,
                forall|k: int| 0 <= k < x ==> !self._draws@[k],
                self._bg_colors@ == ids,
                self._bg_prio@ == prio,
            decreases 160 - x,
        {
            self._draws[x] = false;
            x = x + 1;
        }
        assert(self._draws@ =~= Seq::new(160, |x: int| false));
        let mut i: usize = 0;
        while i < 40
            invariant
                i <= 40,
                height == sprite_height(gpu@),
                self._bg_colors@ == ids,
                self._bg_prio@ == prio,
                (row@, self._draws@) == cgb_sprites(gpu@, i as int, ids, prio, rgb0),
            decreases 40 - i,
        {
            let s = _oam_data(gpu, i);
            if _is_draw_sprite(gpu, &s, height) {
                let (tr0, tr1) = sprite_row(gpu, &s, height, true);
                let ghost drawn = self._draws@;
                let ghost line = row@;
                let mut x: u8 = 0;
                assert(row@ =~= cgb_sprite_row(gpu@, s, drawn, ids, prio, line, 0));
                assert(self._draws@ =~= cgb_sprite_drawn(gpu@, s, drawn, ids, prio, 0));
                while x < 8
                    invariant
                        x <= 8,
                        self._bg_colors@ == ids,
                        self._bg_prio@ == prio,
                        drawn.len() == 160,
                        s.attr.pal_num < 2,
                        tr0 == vram(gpu@, s.attr.bank, sprite_row_addr(gpu@, s)),
                        tr1 == vram(gpu@, s.attr.bank, (sprite_row_addr(gpu@, s) + 1) as u16),
                        row@ == cgb_sprite_row(gpu@, s, drawn, ids, prio, line, x as int),
                        self._draws@ == cgb_sprite_drawn(gpu@, s, drawn, ids, prio, x as int),
                    decreases 8 - x,
                {
                    let px = s.sx.wrapping_add(x);
                    if px < 160 && !self._draws[px as usize] {
                        let tx = if s.attr.flip_x { 7 - x } else { x };
                        let color_num = _cal_color_num(tx, tr0, tr1);
                        if color_num != 0 {
                            let behind = gpu.lcdc.bg_win_pri() && (self._bg_prio[px as usize] || (
                            s.attr.bw_over_obj && self._bg_colors[px as usize] != 0));
                            if !behind {
                                let color = gpu.obpd.color(s.attr.pal_num, color_num as usize);
                                self._set_rgb(row, px as usize, color.0, color.1, color.2);
                                self._draws[px as usize] = true;
                            }
                        }
                    }
                    proof {
                        assert forall|k: int| 0 <= k < 480 implies row@[k] == cgb_sprite_row(
                            gpu@,
                            s,
                            drawn,
                            ids,
                            prio,
                            line,
                            x + 1,
                        )[k] by {
                            let q = (k / 3) as u8;
                            assert(q.wrapping_sub(s.sx) == x <==> q == px);
                        }
                        assert(row@ =~= cgb_sprite_row(gpu@, s, drawn, ids, prio, line, x + 1));
                        assert forall|c: int| 0 <= c < 160 implies self._draws@[c]
                            == cgb_sprite_drawn(gpu@, s, drawn, ids, prio, x + 1)[c] by {
                            let q = c as u8;
                            assert(q.wrapping_sub(s.sx) == x <==> q == px);
                        }
                        assert(self._draws@ =~= cgb_sprite_drawn(
                            gpu@,
                            s,
                            drawn,
                            ids,
                            prio,
                            x + 1,
                        ));
                    }
                    x = x + 1;
                }
            }
            i = i + 1;
        }
    }
}

/// Rendering changes nothing but the framebuffer, and keeps its size.
pub proof fn lemma_rendered_frame(v: GpuView)
    ensures
        rendered(v) == (GpuView { data: rendered(v).data, ..v }),
        v.data.len() == FRAME_BYTES ==> rendered(v).data.len() == FRAME_BYTES,
{
    reveal(rendered);
}

/// Renders the present line into the framebuffer with the renderer of the
/// model.
pub fn draw_line(gpu: &mut GPU)
    ensures
        final(gpu)@ == rendered(old(gpu)@),
{
    proof {
        reveal(rendered);
    }
    if gpu.ly >= 144 {
        return ;
    }
    let base: usize = gpu.ly as usize * ROW_BYTES;
    let mut row = [0u8;ROW_BYTES];
    let mut k: usize = 0;
    while k < ROW_BYTES
        invariant
            k <= ROW_BYTES,
            base == gpu.ly * ROW_BYTES,
            gpu.ly < 144,
            *gpu == *old(gpu),
            forall|j: int| 0 <= j < k ==> row@[j] == row_of(gpu@.data, gpu.ly as int)[j],
        decreases ROW_BYTES - k,
    {
        row[k] = gpu.data[base + k];
        k = k + 1;
    }
    assert(row@ =~= row_of(gpu@.data, gpu.ly as int));
    if gpu.is_cgb_mode() {
        let mut render = CGBRender::init();
        render.draw_bg(&*gpu, &mut row);
        render.draw_sprites(&*gpu, &mut row);
    } else {
        let mut render = GBRender::init();
        render.draw_bg(&*gpu, &mut row);
        render.draw_sprites(&*gpu, &mut row);
    }
    assert(row@ == line(old(gpu)@, row_of(old(gpu)@.data, gpu.ly as int)));
    let mut k: usize = 0;
    while k < ROW_BYTES
        invariant
            k <= ROW_BYTES,
            base == gpu.ly * ROW_BYTES,
            gpu.ly < 144,
            gpu@ == (GpuView { data: gpu@.data, ..old(gpu)@ }),
            forall|j: int|
                0 <= j < FRAME_BYTES ==> gpu@.data[j] == (if base <= j < base + k {
                    row@[j - base]
                } else {
                    old(gpu)@.data[j]
                }),
        decreases ROW_BYTES - k,
    {
        gpu.data[base + k] = row[k];
        k = k + 1;
    }
    assert(gpu@.data =~= with_row(old(gpu)@.data, gpu.ly as int, row@));
}

} // verus!
