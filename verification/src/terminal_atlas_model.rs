//! The geometry of the terminal atlas renderer: cell metrics, what a
//! rendered cluster is drawn from, and which columns of a row a selection
//! covers. Rasterising glyphs stays with the renderer.

use vstd::prelude::*;

verus! {

#[derive(Debug, Clone, Copy, PartialEq, Eq)]
pub struct TerminalAtlasMetrics {
    pub cell_width: u32,
    pub cell_height: u32,
    pub baseline_px: u32,
}

#[derive(Debug, Clone, Copy, PartialEq, Eq)]
pub enum ClusterSpriteKind {
    MonoAlpha,
    ColorRgba,
}

#[derive(Debug, Clone, Copy, PartialEq, Eq)]
pub enum RenderedClusterSourceKind {
    FontRaster,
    GeneratedMask,
    ColorEmoji,
}

#[derive(Debug, Clone, Copy, PartialEq, Eq, Default)]
pub struct TerminalAtlasCacheStats {
    pub sprite_cache_entries: usize,
    pub row_hash_entries: usize,
    pub surface_pixel_bytes: usize,
}

#[derive(Debug, Clone, PartialEq, Eq)]
pub struct RenderedCluster {
    pub row: u32,
    pub col: u32,
    pub text: String,
    pub sprite_kind: ClusterSpriteKind,
    pub source_kind: RenderedClusterSourceKind,
}

/// A selection of the grid, its start before its end.
#[derive(Debug, Clone, Copy, PartialEq, Eq, Hash)]
pub struct TerminalAtlasSelection {
    pub start_row: u32,
    pub start_col: u32,
    pub end_row: u32,
    pub end_col: u32,
}

pub open spec fn position_le(a: (u32, u32), b: (u32, u32)) -> bool {
    a.0 < b.0 || (a.0 == b.0 && a.1 <= b.1)
}

pub open spec fn min_u32(a: u32, b: u32) -> u32 {
    if a <= b { a } else { b }
}

pub open spec fn sat_sub_u32(a: u32, b: u32) -> u32 {
    if a >= b { (a - b) as u32 } else { 0 }
}

impl TerminalAtlasSelection {
    /// The selection between two positions, whichever comes first.
    pub fn new(start_row: u32, start_col: u32, end_row: u32, end_col: u32) -> (r: Self)
        ensures
            if position_le((start_row, start_col), (end_row, end_col)) {
                r == (TerminalAtlasSelection { start_row, start_col, end_row, end_col })
            } else {
                r == (TerminalAtlasSelection { start_row: end_row, start_col: end_col, end_row: start_row, end_col: start_col })
            },
    {
        if start_row < end_row || (start_row == end_row && start_col <= end_col) {
            TerminalAtlasSelection { start_row, start_col, end_row, end_col }
        } else {
            TerminalAtlasSelection { start_row: end_row, start_col: end_col, end_row: start_row, end_col: start_col }
        }
    }

    /// The first and last selected column of `row` in a grid `cols` wide, if any.
    pub open spec fn row_bounds_spec(self, row: u32, cols: u32) -> Option<(u32, u32)> {
        if cols == 0 || row < self.start_row || row > self.end_row {
            None
        } else {
            let start = if row == self.start_row { min_u32(self.start_col, cols) } else { 0 };
            let end = if row == self.end_row { min_u32(self.end_col, cols) } else { cols };
            if start >= end {
                None
            } else {
                Some((min_u32(start, sat_sub_u32(cols, 1)), min_u32(sat_sub_u32(end, 1), sat_sub_u32(cols, 1))))
            }
        }
    }

    pub fn row_bounds(self, row: u32, cols: u32) -> (r: Option<(u32, u32)>)
        ensures
            r == self.row_bounds_spec(row, cols),
    {
        if cols == 0 || row < self.start_row || row > self.end_row {
            return None;
        }
        let start_col = if row == self.start_row {
            if self.start_col < cols { self.start_col } else { cols }
        } else {
            0
        };
        let end_col_exclusive = if row == self.end_row {
            if self.end_col < cols { self.end_col } else { cols }
        } else {
            cols
        };
        if start_col >= end_col_exclusive {
            return None;
        }
        let last = cols - 1;
        let first = if start_col < last { start_col } else { last };
        let end_last = end_col_exclusive - 1;
        let second = if end_last < last { end_last } else { last };
        Some((first, second))
    }
}

// ---------------------------------------------------------------------------
// Pixels
// ---------------------------------------------------------------------------

/// One pixel of the rendered surface.
#[derive(Debug, Clone, Copy, PartialEq, Eq, Structural)]
pub struct Rgba8Pixel {
    pub r: u8,
    pub g: u8,
    pub b: u8,
    pub a: u8,
}

/// A pixel from `0xAARRGGBB`.
pub open spec fn rgba8_spec(color: u32) -> Rgba8Pixel {
    Rgba8Pixel {
        a: (color / 0x100_0000) as u8,
        r: ((color / 0x1_0000) % 256) as u8,
        g: ((color / 0x100) % 256) as u8,
        b: (color % 256) as u8,
    }
}

pub fn rgba8(color: u32) -> (r: Rgba8Pixel)
    ensures
        r == rgba8_spec(color),
{
    let a = ((color >> 24) & 0xff) as u8;
    let red = ((color >> 16) & 0xff) as u8;
    let g = ((color >> 8) & 0xff) as u8;
    let b = (color & 0xff) as u8;
    assert(((color >> 24) & 0xff) == color / 0x100_0000) by (bit_vector);
    assert(((color >> 16) & 0xff) == (color / 0x1_0000) % 256) by (bit_vector);
    assert(((color >> 8) & 0xff) == (color / 0x100) % 256) by (bit_vector);
    assert((color & 0xff) == color % 256) by (bit_vector);
    Rgba8Pixel { r: red, g, b, a }
}

/// `fg` laid over `c` with opacity `alpha` (out of 255), rounded down.
pub open spec fn blend_channel(c: u8, fg: u8, alpha: u8) -> u8 {
    ((fg as int * alpha as int + c as int * (255 - alpha as int)) / 255) as u8
}

pub open spec fn blended(dst: Rgba8Pixel, fg: Rgba8Pixel, alpha: u8) -> Rgba8Pixel {
    Rgba8Pixel {
        r: blend_channel(dst.r, fg.r, alpha),
        g: blend_channel(dst.g, fg.g, alpha),
        b: blend_channel(dst.b, fg.b, alpha),
        a: 255,
    }
}

fn blend_channel_exec(c: u8, fg: u8, alpha: u8) -> (r: u8)
    ensures
        r == blend_channel(c, fg, alpha),
{
    let a = alpha as u16;
    let inv = 255 - a;
    assert((fg as int) * (a as int) + (c as int) * (inv as int) <= 65025) by (nonlinear_arith)
        requires
            fg <= 255,
            c <= 255,
            a + inv == 255,
            a >= 0,
            inv >= 0,
    ;
    assert(0 <= (fg as int) * (a as int) && 0 <= (c as int) * (inv as int)) by (nonlinear_arith)
        requires
            fg >= 0,
            c >= 0,
            a >= 0,
            inv >= 0,
    ;
    let sum = fg as u16 * a + c as u16 * inv;
    (sum / 255) as u8
}

/// Lays `fg` over `dst` with opacity `alpha`; the result is opaque.
pub fn blend(dst: &mut Rgba8Pixel, fg: Rgba8Pixel, alpha: u8)
    ensures
        *final(dst) == blended(*old(dst), fg, alpha),
{
    dst.r = blend_channel_exec(dst.r, fg.r, alpha);
    dst.g = blend_channel_exec(dst.g, fg.g, alpha);
    dst.b = blend_channel_exec(dst.b, fg.b, alpha);
    dst.a = 255;
}

/// `overlay` laid over `base` with the overlay's own opacity.
pub fn composite_color(base: Rgba8Pixel, overlay: Rgba8Pixel) -> (r: Rgba8Pixel)
    ensures
        r == blended(base, overlay, overlay.a),
{
    let mut color = base;
    blend(&mut color, overlay, overlay.a);
    color
}

/// A selection of columns `selection.0..=selection.1` touches a cell that
/// starts at `col` and is `width` columns wide (at least one).
pub fn selection_overlaps_cell(selection: (u32, u32), col: u32, width: u32) -> (r: bool)
    requires
        col + (if width > 0 { width - 1 } else { 0 }) <= u32::MAX,
    ensures
        r == (col + (if width > 0 { width - 1 } else { 0 }) >= selection.0 && col <= selection.1),
{
    let cell_end = col + if width > 0 { width - 1 } else { 0 };
    cell_end >= selection.0 && col <= selection.1
}

/// A rectangle of pixels.
#[derive(Debug, Clone, Copy, PartialEq, Eq)]
pub struct PixelRect {
    pub start_x: u32,
    pub start_y: u32,
    pub width: u32,
    pub height: u32,
}

/// The point `(x, y)` lies in `rect`.
pub open spec fn in_rect(rect: PixelRect, x: int, y: int) -> bool {
    rect.start_x <= x < rect.start_x + rect.width && rect.start_y <= y < rect.start_y + rect.height
}

/// Distinct points of a row-major surface have distinct indices.
proof fn lemma_index_unique(w: int, x1: int, y1: int, x2: int, y2: int)
    requires
        0 <= x1 < w,
        0 <= x2 < w,
        0 <= y1,
        0 <= y2,
        y1 * w + x1 == y2 * w + x2,
    ensures
        x1 == x2 && y1 == y2,
{
    if y1 < y2 {
        assert(y1 * w + x1 < y2 * w + x2) by (nonlinear_arith)
            requires
                y1 < y2,
                0 <= x1 < w,
                0 <= x2,
        ;
    } else if y2 < y1 {
        assert(y2 * w + x2 < y1 * w + x1) by (nonlinear_arith)
            requires
                y2 < y1,
                0 <= x2 < w,
                0 <= x1,
        ;
    }
}

/// Fills `rect`, clipped to the surface, with `color`: every pixel `(x, y)`
/// of the surface inside the rectangle takes the color, every other keeps
/// its own.
pub fn fill_rect(pixels: &mut Vec<Rgba8Pixel>, surface_width_px: u32, surface_height_px: u32, rect: PixelRect, color: Rgba8Pixel)
    requires
        old(pixels)@.len() == surface_width_px * surface_height_px,
        rect.start_x + rect.width <= u32::MAX,
        rect.start_y + rect.height <= u32::MAX,
        surface_width_px * surface_height_px <= u32::MAX,
    ensures
        final(pixels)@.len() == old(pixels)@.len(),
        forall|x: int, y: int| 0 <= x < surface_width_px && 0 <= y < surface_height_px ==>
            #[trigger] final(pixels)@[y * surface_width_px + x] == (if in_rect(rect, x, y) {
                color
            } else {
                old(pixels)@[y * surface_width_px + x]
            }),
{
    let w = surface_width_px;
    let h = surface_height_px;
    let end_x = if rect.start_x + rect.width < w { rect.start_x + rect.width } else { w };
    let end_y = if rect.start_y + rect.height < h { rect.start_y + rect.height } else { h };
    let x0 = if rect.start_x < w { rect.start_x } else { w };
    let y0 = if rect.start_y < h { rect.start_y } else { h };
    let mut y = y0;
    let ghost before = pixels@;
    while y < end_y
        invariant
            pixels@.len() == before.len(),
            before.len() == w * h,
            w * h <= u32::MAX,
            end_y <= h,
            end_x <= w,
            x0 <= w,
            y0 <= y,
            end_x == (if rect.start_x + rect.width < w { rect.start_x + rect.width } else { w as int }),
            x0 == (if rect.start_x < w { rect.start_x } else { w }),
            y0 == (if rect.start_y < h { rect.start_y } else { h }),
            end_y == (if rect.start_y + rect.height < h { rect.start_y + rect.height } else { h as int }),
            forall|px: int, py: int| 0 <= px < w && 0 <= py < h ==> #[trigger] pixels@[py * w + px] == (
                if py < y && in_rect(rect, px, py) { color } else { before[py * w + px] }
            ),
        decreases end_y - y,
    {
        let mut x = x0;
        while x < end_x
            invariant
                pixels@.len() == before.len(),
                before.len() == w * h,
                w * h <= u32::MAX,
                y0 <= y < end_y,
                end_y <= h,
                end_x <= w,
                x0 <= x,
                end_x == (if rect.start_x + rect.width < w { rect.start_x + rect.width } else { w as int }),
                x0 == (if rect.start_x < w { rect.start_x } else { w }),
                y0 == (if rect.start_y < h { rect.start_y } else { h }),
                end_y == (if rect.start_y + rect.height < h { rect.start_y + rect.height } else { h as int }),
                forall|px: int, py: int| 0 <= px < w && 0 <= py < h ==> #[trigger] pixels@[py * w + px] == (
                    if (py < y || (py == y && px < x)) && in_rect(rect, px, py) { color } else { before[py * w + px] }
                ),
            decreases end_x - x,
        {
            assert(y * w + x < w * h) by (nonlinear_arith)
                requires
                    y < h,
                    x < w,
            ;
            let idx = (y * w + x) as usize;
            let ghost prev = pixels@;
            pixels.set(idx, color);
            proof {
                assert forall|px: int, py: int| 0 <= px < w && 0 <= py < h implies #[trigger] pixels@[py * w + px] == (
                    if (py < y || (py == y && px < x + 1)) && in_rect(rect, px, py) { color } else { before[py * w + px] }
                ) by {
                    assert(0 <= py * w + px < w * h) by (nonlinear_arith)
                        requires
                            0 <= px < w,
                            0 <= py < h,
                    ;
                    if py * w + px == idx as int {
                        lemma_index_unique(w as int, px, py, x as int, y as int);
                    } else {
                        assert(pixels@[py * w + px] == prev[py * w + px]);
                        if py == y && px == x {
                        }
                    }
                }
            }
            x = x + 1;
        }
        proof {
            assert forall|px: int, py: int| 0 <= px < w && 0 <= py < h implies #[trigger] pixels@[py * w + px] == (
                if py < y + 1 && in_rect(rect, px, py) { color } else { before[py * w + px] }
            ) by {
                if py == y && px >= x && in_rect(rect, px, py) {
                    assert(false);
                }
            }
        }
        y = y + 1;
    }
    proof {
        assert forall|px: int, py: int| 0 <= px < w && 0 <= py < h implies #[trigger] pixels@[py * w + px] == (
            if in_rect(rect, px, py) { color } else { before[py * w + px] }
        ) by {
            if py >= y && in_rect(rect, px, py) {
                assert(false);
            }
        }
    }
}

// ---------------------------------------------------------------------------
// Which rows a frame draws again
// ---------------------------------------------------------------------------

/// The row hashes kept from the last frame when a frame of `rows` rows is
/// drawn: all zero after a resize, else the old ones, cut to `rows` or
/// padded with zero.
pub open spec fn kept_row_hash(previous: Seq<u64>, resized: bool, i: int) -> u64 {
    if !resized && i < previous.len() { previous[i] } else { 0 }
}

pub fn row_hashes_for_frame(previous: &Vec<u64>, rows: u32, resized: bool) -> (r: Vec<u64>)
    ensures
        r@.len() == rows,
        forall|i: int| 0 <= i < rows ==> #[trigger] r@[i] == kept_row_hash(previous@, resized, i),
{
    let mut r: Vec<u64> = Vec::new();
    let mut i: u32 = 0;
    while i < rows
        invariant
            i <= rows,
            r@.len() == i,
            forall|j: int| 0 <= j < i ==> #[trigger] r@[j] == kept_row_hash(previous@, resized, j),
        decreases rows - i,
    {
        let h = if !resized && (i as usize) < previous.len() { previous[i as usize] } else { 0 };
        r.push(h);
        i = i + 1;
    }
    r
}

/// A row is drawn again after a resize, when images are to be recomposed,
/// or when its content hash changed.
pub open spec fn row_dirty(resized: bool, recompose: bool, kept: Seq<u64>, next: Seq<u64>, i: int) -> bool {
    resized || recompose || kept[i] != next[i]
}

/// The rows among the first `n` that are drawn again, in order.
pub open spec fn dirty_rows(resized: bool, recompose: bool, kept: Seq<u64>, next: Seq<u64>, n: nat) -> Seq<u32>
    decreases n,
{
    if n == 0 {
        Seq::empty()
    } else {
        let before = dirty_rows(resized, recompose, kept, next, (n - 1) as nat);
        if row_dirty(resized, recompose, kept, next, n - 1) { before.push((n - 1) as u32) } else { before }
    }
}

/// The rows a frame draws again, given the hashes kept from the last frame
/// and those of the rows now.
pub fn rows_to_rerender(resized: bool, recompose: bool, kept: &Vec<u64>, next: &Vec<u64>) -> (r: Vec<u32>)
    requires
        kept@.len() == next@.len(),
        next@.len() <= u32::MAX,
    ensures
        r@ == dirty_rows(resized, recompose, kept@, next@, next@.len()),
{
    let mut r: Vec<u32> = Vec::new();
    let mut i: usize = 0;
    while i < next.len()
        invariant
            i <= next@.len(),
            kept@.len() == next@.len(),
            next@.len() <= u32::MAX,
            r@ == dirty_rows(resized, recompose, kept@, next@, i as nat),
        decreases next.len() - i,
    {
        if resized || recompose || kept[i] != next[i] {
            r.push(i as u32);
        }
        i = i + 1;
    }
    r
}

/// The viewport background is painted again after a resize or when its
/// colours (default, even rows, odd rows) changed.
pub fn viewport_background_changed(resized: bool, previous: Option<(u32, u32, u32)>, now: (u32, u32, u32)) -> (r: bool)
    ensures
        r == (resized || previous != Some(now)),
{
    match previous {
        Some(p) => resized || p.0 != now.0 || p.1 != now.1 || p.2 != now.2,
        None => true,
    }
}

} // verus!
