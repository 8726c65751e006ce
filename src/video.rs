//! The four 4-bit pages, the rasterizer, and display state.

use vstd::prelude::*;
use crate::cursor::{ByteCursor, ReadError};
use crate::renderer::{Renderer, RendererError, SCALED_H, SCALED_W};
use crate::cursor::be16_at;
use crate::shapes::{scale, scale_byte, vertices_at, Point, Polygon, ShapeError};

verus! {

pub const HEIGHT: usize = 200;
pub const WIDTH: usize = 320;
pub const VID_PAGE_SIZE: usize = 32000;
pub const NUM_PAGES: usize = 4;
/// Bytes in one row of a page.
pub const ROW_BYTES: usize = 160;
/// How deep polygon records may nest.
pub const MAX_HIERARCHY_DEPTH: u8 = 16;
/// Palettes in the palette segment.
pub const NUM_PALETTES: u8 = 32;

#[derive(Debug, PartialEq, Eq, Structural, Clone, Copy)]
pub enum VideoError {
    Io(ReadError),
    RendererError(RendererError),
    InvalidPalette(u8),
    UnexpectedCommand,
    InvalidPointCount(u8),
    /// Polygon records nest deeper than any drawing needs.
    HierarchyTooDeep,
    /// The background blob holds fewer than four planes of a page.
    BackgroundTooShort,
}

/// A page named by the bytecode.
#[derive(Debug, PartialEq, Eq, Structural, Clone, Copy)]
pub enum PageId {
    Numbered(u8),
    Front,
    Back,
}

/// The page id that a raw byte of the bytecode stands for.
pub open spec fn page_id_of(raw: u8) -> PageId {
    if raw == 0xFE {
        PageId::Front
    } else if raw == 0xFF {
        PageId::Back
    } else if raw <= 3 {
        PageId::Numbered(raw)
    } else {
        PageId::Numbered(0)
    }
}

impl PageId {
    pub fn from(raw_page_id: u8) -> (r: PageId)
        ensures
            r == page_id_of(raw_page_id),
    {
        match raw_page_id {
            0xFE => PageId::Front,
            0xFF => PageId::Back,
            n => if n <= 3 {
                PageId::Numbered(n)
            } else {
                PageId::Numbered(0)
            },
        }
    }
}

#[derive(Debug, PartialEq, Eq, Structural, Clone, Copy)]
pub enum PaletteRequest {
    Change(u8),
    Keep,
}

/// How a drawing colour is applied to a pixel.
#[derive(Debug, PartialEq, Eq, Structural, Clone, Copy)]
pub enum DrawMode {
    /// Set the pixel to this palette index.
    Solid(u8),
    /// Set the top bit of the pixel's index.
    Blend,
    /// Copy the pixel from page 0.
    Background,
}

/// The draw mode of a colour.
pub open spec fn mode_of(color: u8) -> DrawMode {
    if color < 0x10 {
        DrawMode::Solid(color)
    } else if color == 0x10 {
        DrawMode::Blend
    } else {
        DrawMode::Background
    }
}

pub open spec fn hi(b: u8) -> u8 {
    b / 16
}

pub open spec fn lo(b: u8) -> u8 {
    b % 16
}

/// `b` with its high nibble (the even pixel) replaced by `n`.
pub open spec fn with_hi(b: u8, n: u8) -> u8 {
    ((n % 16) * 16 + b % 16) as u8
}

/// `b` with its low nibble (the odd pixel) replaced by `n`.
pub open spec fn with_lo(b: u8, n: u8) -> u8 {
    ((b / 16) * 16 + n % 16) as u8
}

/// A nibble with its top bit set.
pub open spec fn or8(n: u8) -> u8 {
    if n % 16 >= 8 {
        n % 16
    } else {
        (n % 16 + 8) as u8
    }
}

/// The nibble of pixel parity `odd` in byte `b`.
pub open spec fn nibble(b: u8, odd: bool) -> u8 {
    if odd {
        lo(b)
    } else {
        hi(b)
    }
}

/// `b` with the nibble of parity `odd` replaced by `n`.
pub open spec fn set_nibble(b: u8, odd: bool, n: u8) -> u8 {
    if odd {
        with_lo(b, n)
    } else {
        with_hi(b, n)
    }
}

/// The new nibble of a pixel under `mode`, from its old nibble and the one
/// of page 0 at the same place.
pub open spec fn drawn_nibble(mode: DrawMode, old: u8, bg: u8) -> u8 {
    match mode {
        DrawMode::Solid(c) => c % 16,
        DrawMode::Blend => or8(old),
        DrawMode::Background => bg % 16,
    }
}

/// The byte holding one pixel after drawing it.
pub open spec fn point_byte(old: u8, bg: u8, odd: bool, color: u8) -> u8 {
    set_nibble(old, odd, drawn_nibble(mode_of(color), nibble(old, odd), nibble(bg, odd)))
}

/// Byte `i` of a page-sized blob filled with colour `c`.
pub open spec fn fill_byte(c: u8) -> u8 {
    ((c << 4u8) | c) as u8
}

/// Byte `k` of a horizontal span of `width` bytes: each of its two pixels
/// is drawn where it lies within the span, that is but for the even pixel of
/// the first byte when the span starts on an odd column (`min_odd`), and the
/// odd pixel of the last byte when it ends on an even one (`max_odd` zero).
pub open spec fn span_byte(mode: DrawMode, old: u8, bg: u8, k: int, width: int, min_odd: int, max_odd: int) -> u8 {
    let h = if k == 0 && min_odd == 1 {
        hi(old)
    } else {
        drawn_nibble(mode, hi(old), hi(bg))
    };
    let l = if k == width - 1 && max_odd == 0 {
        lo(old)
    } else {
        drawn_nibble(mode, lo(old), lo(bg))
    };
    ((h % 16) * 16 + l % 16) as u8
}

/// Where the span from `x1` to `x2` on row `y` starts in a page, its width
/// in bytes, and the parity of its first and last column.
pub open spec fn span_geometry(y: int, x1: int, x2: int) -> (int, int, int, int) {
    let x_min = if x1 <= x2 {
        x1
    } else {
        x2
    };
    let x_max = if x1 <= x2 {
        x2
    } else {
        x1
    };
    (y * 160 + x_min / 2, x_max / 2 - x_min / 2 + 1, x_min % 2, x_max % 2)
}

/// The four pages, one after the other, after drawing the span from `x1` to
/// `x2` on row `y` of page `work`.
pub open spec fn span_drawn(pages: Seq<u8>, work: int, y: int, x1: int, x2: int, mode: DrawMode) -> Seq<u8> {
    let (offset, width, start, end) = span_geometry(y, x1, x2);
    let base = work * 32000 + offset;
    Seq::new(
        pages.len(),
        |i: int|
            if base <= i < base + width {
                span_byte(mode, pages[i], pages[offset + (i - base)], i - base, width, start, end)
            } else {
                pages[i]
            },
    )
}

/// The four pages after drawing one pixel at (`x`, `y`) on page `work`;
/// unchanged where the pixel is off-screen.
pub open spec fn point_drawn(pages: Seq<u8>, work: int, x: int, y: int, color: u8) -> Seq<u8> {
    if 0 <= x <= 319 && 0 <= y <= 199 {
        let offset = y * 160 + x / 2;
        let i = work * 32000 + offset;
        pages.update(i, point_byte(pages[i], pages[offset], x % 2 == 1, color))
    } else {
        pages
    }
}

/// Bit `7 - k` of plane `b` at byte `i` of a four-plane background blob.
pub open spec fn plane_bit(src: Seq<u8>, i: int, b: int, k: int) -> u8 {
    (src[i + 8000 * b] >> ((7 - k) as u8)) & 1u8
}

/// The colour index of pixel `k` (0 to 7) of planar byte `i`: plane 0 gives
/// the lowest bit, plane 3 the highest.
pub open spec fn bg_pixel(src: Seq<u8>, i: int, k: int) -> int {
    8 * plane_bit(src, i, 3, k) + 4 * plane_bit(src, i, 2, k) + 2 * plane_bit(src, i, 1, k)
        + plane_bit(src, i, 0, k)
}

/// Byte `n` of the page that a four-plane background blob decodes to.
pub open spec fn bg_byte(src: Seq<u8>, n: int) -> u8 {
    (bg_pixel(src, n / 4, 2 * (n % 4)) * 16 + bg_pixel(src, n / 4, 2 * (n % 4) + 1)) as u8
}

/// The front and back page indices after displaying `id`: a numbered page
/// becomes the front page, the back page swaps with the front.
pub open spec fn displayed(v: Video, id: PageId) -> (usize, usize) {
    match id {
        PageId::Numbered(_) => (v.page_of(id), v.back_buffer),
        PageId::Back => (v.back_buffer, v.front_buffer),
        PageId::Front => (v.front_buffer, v.back_buffer),
    }
}

/// `a` and `b` agree everywhere but on page `work`.
pub open spec fn unchanged_outside(a: Seq<u8>, b: Seq<u8>, work: int) -> bool {
    &&& a.len() == b.len()
    &&& forall|i: int|
        0 <= i < a.len() && !(work * 32000 <= i < work * 32000 + 32000) ==> #[trigger] a[i] == b[i]
}

/// `num / den` (with `den` positive) rounded to the nearest integer, halves
/// away from zero.
pub open spec fn round_ratio(num: int, den: int) -> int {
    if num >= 0 {
        (2 * num + den) / (2 * den)
    } else {
        -((-2 * num + den) / (2 * den))
    }
}

/// `v / 2`, rounded toward zero.
pub open spec fn half_toward_zero(v: int) -> int {
    if v >= 0 {
        v / 2
    } else {
        -((-v) / 2)
    }
}

/// Where a polygon edge stands on a scanline.
pub enum EdgeX {
    /// At `num / den`, `den` positive.
    At(i64, i64),
    /// Infinitely far right: the edge is flat and leans right.
    FarRight,
    /// Nowhere to draw: the edge is flat and leans left, or is a point.
    Nowhere,
}

/// Whether `after` is what copying page `src_page_id` onto `dst_page_id`
/// with scroll `vscroll` makes of the pages of `v`. A numbered source with
/// bit 0x80 set names page `n & 3` and, where `vscroll` is within 199,
/// moves `200 - |vscroll|` bytes shifted by `vscroll`; otherwise the whole
/// page that the source names (any other number outside 0 to 3 naming page
/// 0) is copied. Nothing changes where both ids are equal or name the same
/// page.
pub open spec fn copy_page_result(
    v: Video,
    src_page_id: PageId,
    dst_page_id: PageId,
    vscroll: i16,
    after: Seq<u8>,
) -> bool {
    let scrolled = src_page_id matches PageId::Numbered(n) && n & 0x80 != 0;
    let src = match src_page_id {
        PageId::Numbered(n) => if scrolled {
            PageId::Numbered(n & 3)
        } else {
            src_page_id
        },
        other => other,
    };
    let s = v.page_of(src) as int;
    let d = v.page_of(dst_page_id) as int;
    let partial = scrolled && -199 <= vscroll <= 199;
    let len = if partial {
        200 - if vscroll < 0 {
            -vscroll
        } else {
            vscroll as int
        }
    } else {
        32000
    };
    let so = if partial && vscroll < 0 {
        -vscroll
    } else {
        0
    };
    let dst_off = if partial && vscroll >= 0 {
        vscroll as int
    } else {
        0
    };
    if src_page_id == dst_page_id || s == d {
        after == v.pages@
    } else {
        &&& after.len() == v.pages@.len()
        &&& forall|i: int|
            0 <= i < NUM_PAGES * VID_PAGE_SIZE ==> #[trigger] after[i] == if d * 32000 + dst_off <= i
                < d * 32000 + dst_off + len {
                v.pages@[s * 32000 + so + (i - d * 32000 - dst_off)]
            } else {
                v.pages@[i]
            }
    }
}

/// Where an edge from `x0`, moving `dx` per `dy` rows, stands `k` rows down.
pub open spec fn edge_at(x0: int, dx: int, dy: int, k: int) -> EdgeX {
    if dy == 0 {
        if k == 0 {
            EdgeX::At(x0 as i64, 1)
        } else if dx > 0 {
            EdgeX::FarRight
        } else {
            EdgeX::Nowhere
        }
    } else if dy > 0 {
        EdgeX::At((x0 * dy + k * dx) as i64, dy as i64)
    } else {
        EdgeX::At((x0 * -dy + k * -dx) as i64, -dy as i64)
    }
}

/// The columns to draw between a left and a right edge: none where the left
/// edge is past the right border or the right one before the left border,
/// else both rounded and clipped to the screen.
pub open spec fn row_span(left: EdgeX, right: EdgeX) -> Option<(int, int)> {
    match left {
        EdgeX::At(ln, ld) => if ln <= 319 * ld {
            let l = round_ratio(ln as int, ld as int);
            let dl = if l < 0 {
                0
            } else {
                l
            };
            match right {
                EdgeX::At(rn, rd) => if rn >= 0 {
                    let r = round_ratio(rn as int, rd as int);
                    Some((dl, if r > 319 {
                        319
                    } else {
                        r
                    }))
                } else {
                    None
                },
                EdgeX::FarRight => Some((dl, 319)),
                EdgeX::Nowhere => None,
            }
        } else {
            None
        },
        _ => None,
    }
}

/// The pages after the rows `k..h` of one pair of edges, from row `y` on,
/// with the row reached and whether the bottom of the screen stopped it.
pub open spec fn rows_filled(
    pages: Seq<u8>,
    work: int,
    color: u8,
    y: int,
    k: int,
    h: int,
    lx0: int,
    ldx: int,
    rx0: int,
    rdx: int,
    rdy: int,
) -> (Seq<u8>, int, bool)
    decreases h - k,
{
    if k >= h {
        (pages, y, false)
    } else {
        let span = row_span(edge_at(lx0, ldx, h, k), edge_at(rx0, rdx, rdy, k));
        let drawn = if y >= 0 && span is Some {
            span_drawn(pages, work, y, span.unwrap().0, span.unwrap().1, mode_of(color))
        } else {
            pages
        };
        if y + 1 > 199 {
            (drawn, y + 1, true)
        } else {
            rows_filled(drawn, work, color, y + 1, k + 1, h, lx0, ldx, rx0, rdx, rdy)
        }
    }
}

/// The pages after the edge pairs `i..` of the vertex list, from row `y` on.
pub open spec fn edges_filled(pages: Seq<u8>, work: int, color: u8, pts: Seq<Point>, x1: int, y: int, i: int) -> Seq<u8>
    decreases pts.len() / 2 - i,
{
    if i < 0 || i >= pts.len() / 2 {
        pages
    } else {
        let n = pts.len() as int;
        let cl = pts[n - 1 - i];
        let nl = pts[n - 2 - i];
        let cr = pts[i];
        let nr = pts[i + 1];
        let h = nl.y - cl.y;
        if h > 0 {
            let (drawn_pages, y2, stopped) = rows_filled(
                pages,
                work,
                color,
                y,
                0,
                h,
                cl.x + x1,
                nl.x - cl.x,
                cr.x + x1,
                nr.x - cr.x,
                nr.y - cr.y,
            );
            if stopped {
                drawn_pages
            } else {
                edges_filled(drawn_pages, work, color, pts, x1, y2, i + 1)
            }
        } else {
            edges_filled(pages, work, color, pts, x1, y, i + 1)
        }
    }
}

/// The pages after filling a polygon with bounding box `bbw` by `bbh` and
/// vertices `pts` around `pt` on page `work`. A polygon of no width, height
/// 1 and four vertices is the single pixel at `pt`.
pub open spec fn polygon_filled(
    pages: Seq<u8>,
    work: int,
    color: u8,
    pt: Point,
    bbw: i16,
    bbh: i16,
    pts: Seq<Point>,
) -> Seq<u8> {
    let x1 = pt.x - half_toward_zero(bbw as int);
    let x2 = pt.x + half_toward_zero(bbw as int);
    let y1 = pt.y - half_toward_zero(bbh as int);
    let y2 = pt.y + half_toward_zero(bbh as int);
    if bbw == 0 && bbh == 1 && pts.len() == 4 {
        point_drawn(pages, work, pt.x as int, pt.y as int, color)
    } else if x1 > 319 || x2 < 0 || y1 > 199 || y2 < 0 {
        pages
    } else {
        edges_filled(pages, work, color, pts, x1, y1, 0)
    }
}

/// A position moved `n` bytes on, stopping at the largest position.
pub open spec fn skipped(pos: int, n: int) -> int {
    if pos + n <= usize::MAX {
        pos + n
    } else {
        usize::MAX as int
    }
}

/// What drawing the polygon record at `pos` of `s` around `pt` on page
/// `work` gives: the pages after, or the error. Records nest at most
/// `depth` hierarchies deep.
pub open spec fn record_drawn(
    pages: Seq<u8>,
    work: int,
    s: Seq<u8>,
    pos: int,
    color: u8,
    zoom: u16,
    pt: Point,
    depth: nat,
) -> Result<Seq<u8>, VideoError>
    decreases depth, 2nat, 0nat,
{
    if !(0 <= pos < s.len()) {
        Err(VideoError::Io(ReadError::UnexpectedEof))
    } else {
        let command = s[pos];
        if command >= 0xC0 {
            let c = if color & 0x80 != 0 {
                command & 0x3F
            } else {
                color
            };
            match vertices_at(s, pos + 1, zoom) {
                Err(ShapeError::Io(e)) => Err(VideoError::Io(e)),
                Err(ShapeError::InvalidPointCount(n)) => Err(VideoError::InvalidPointCount(n)),
                Ok(v) => Ok(polygon_filled(pages, work, c, pt, v.bbw, v.bbh, v.points)),
            }
        } else if command % 64 == 2 {
            hierarchy_drawn(pages, work, s, pos + 1, zoom, pt, depth)
        } else {
            Err(VideoError::UnexpectedCommand)
        }
    }
}

/// A hierarchy record's body at `pos`: its offset from `pgc`, then its
/// children.
pub open spec fn hierarchy_drawn(
    pages: Seq<u8>,
    work: int,
    s: Seq<u8>,
    pos: int,
    zoom: u16,
    pgc: Point,
    depth: nat,
) -> Result<Seq<u8>, VideoError>
    decreases depth, 1nat, 0nat,
{
    if depth == 0 {
        Err(VideoError::HierarchyTooDeep)
    } else if !(0 <= pos && pos + 3 <= s.len()) {
        Err(VideoError::Io(ReadError::UnexpectedEof))
    } else {
        let pt = Point {
            x: pgc.x.wrapping_sub(scale(s[pos], zoom)),
            y: pgc.y.wrapping_sub(scale(s[pos + 1], zoom)),
        };
        children_drawn(pages, work, s, pos + 3, zoom, pt, depth, (s[pos + 2] + 1) as nat)
    }
}

/// Where the stream stands after the `k` child headers starting at `pos`:
/// four bytes each, two more where the offset's top bit asks for a colour.
pub open spec fn headers_end(s: Seq<u8>, pos: int, k: nat) -> int
    decreases k,
{
    if k == 0 {
        pos
    } else {
        let raw = be16_at(s, pos);
        let next = if raw & 0x8000 != 0 {
            skipped(pos + 5, 1)
        } else {
            pos + 4
        };
        headers_end(s, next, (k - 1) as nat)
    }
}

/// The next `k` children of a hierarchy whose headers start at `pos`, each
/// drawn one level deeper.
pub open spec fn children_drawn(
    pages: Seq<u8>,
    work: int,
    s: Seq<u8>,
    pos: int,
    zoom: u16,
    pt: Point,
    depth: nat,
    k: nat,
) -> Result<Seq<u8>, VideoError>
    decreases depth, 0nat, k,
{
    if k == 0 {
        Ok(pages)
    } else if depth == 0 || !(0 <= pos && pos + 4 <= s.len()) {
        Err(VideoError::Io(ReadError::UnexpectedEof))
    } else {
        let raw = be16_at(s, pos);
        let po = Point {
            x: pt.x.wrapping_add(scale(s[pos + 2], zoom)),
            y: pt.y.wrapping_add(scale(s[pos + 3], zoom)),
        };
        if raw & 0x8000 != 0 && pos + 5 > s.len() {
            Err(VideoError::Io(ReadError::UnexpectedEof))
        } else {
            let color: u8 = if raw & 0x8000 != 0 {
                s[pos + 4] & 0x7F
            } else {
                0xFF
            };
            let next = if raw & 0x8000 != 0 {
                skipped(pos + 5, 1)
            } else {
                pos + 4
            };
            match record_drawn(pages, work, s, (raw & 0x7FFF) * 2, color, zoom, po, (depth - 1) as nat) {
                Err(e) => Err(e),
                Ok(drawn_pages) => children_drawn(drawn_pages, work, s, next, zoom, pt, depth, (k - 1) as nat),
            }
        }
    }
}

/// The four pages, the page indices, and the pending palette change.
pub struct Video {
    pub hline_y: i32,
    /// Pages 0 to 3, 32000 bytes each, in order.
    pub pages: Vec<u8>,
    pub work_buffer: usize,
    pub front_buffer: usize,
    pub back_buffer: usize,
    pub palette_req: PaletteRequest,
    pub renderer: Renderer,
}

fn plane_bit_of(src: &Vec<u8>, i: usize, b: usize, k: u8) -> (r: u8)
    requires
        i < 8000,
        b < 4,
        k < 8,
        src@.len() >= 32000,
    ensures
        r == plane_bit(src@, i as int, b as int, k as int),
        r <= 1,
{
    let v = src[i + 8000 * b];
    let r = (v >> (7 - k)) & 1u8;
    assert(r <= 1) by (bit_vector)
        requires
            r == (v >> ((7 - k) as u8)) & 1u8,
    ;
    r
}

fn bg_pixel_of(src: &Vec<u8>, i: usize, k: u8) -> (r: u8)
    requires
        i < 8000,
        k < 8,
        src@.len() >= 32000,
    ensures
        r == bg_pixel(src@, i as int, k as int),
        r < 16,
{
    8 * plane_bit_of(src, i, 3, k) + 4 * plane_bit_of(src, i, 2, k) + 2 * plane_bit_of(src, i, 1, k)
        + plane_bit_of(src, i, 0, k)
}

fn half_of(v: i16) -> (r: i32)
    ensures
        r == half_toward_zero(v as int),
{
    if v >= 0 {
        v as i32 / 2
    } else {
        -((-(v as i32)) / 2)
    }
}

fn round_of(num: i64, den: i64) -> (r: i64)
    requires
        0 < den <= 0x2_0000,
        -0x10_0000_0000 <= num <= 0x10_0000_0000,
    ensures
        r == round_ratio(num as int, den as int),
{
    if num >= 0 {
        (2 * num + den) / (2 * den)
    } else {
        let q: i64 = (-2 * num + den) / (2 * den);
        assert(0 <= q <= -2 * num + den) by (nonlinear_arith)
            requires
                q == (-2 * num + den) / (2 * den),
                -2 * num + den >= 0,
                den > 0,
        ;
        -q
    }
}

/// The x of an edge from `x0` moving `dx` per `dy` rows, `k` rows down.
/// A flat edge (`dy` zero) stands at `x0` on its first row and then runs off
/// to the side it leans to.
fn edge_x(x0: i64, dx: i64, dy: i64, k: i64) -> (r: EdgeX)
    requires
        -0x2_0000 <= x0 <= 0x2_0000,
        -0x2_0000 <= dx <= 0x2_0000,
        -0x2_0000 <= dy <= 0x2_0000,
        0 <= k <= 0x2_0000,
    ensures
        edge_in_range(r),
        r == edge_at(x0 as int, dx as int, dy as int, k as int),
{
    if dy == 0 {
        if k == 0 {
            EdgeX::At(x0, 1)
        } else if dx > 0 {
            EdgeX::FarRight
        } else {
            EdgeX::Nowhere
        }
    } else {
        let (sdx, sdy) = if dy > 0 {
            (dx, dy)
        } else {
            (-dx, -dy)
        };
        assert(-0x4_0000_0000 <= x0 * sdy <= 0x4_0000_0000) by (nonlinear_arith)
            requires
                -0x2_0000 <= x0 <= 0x2_0000,
                0 < sdy <= 0x2_0000,
        ;
        assert(-0x4_0000_0000 <= k * sdx <= 0x4_0000_0000) by (nonlinear_arith)
            requires
                -0x2_0000 <= sdx <= 0x2_0000,
                0 <= k <= 0x2_0000,
        ;
        EdgeX::At(x0 * sdy + k * sdx, sdy)
    }
}

/// An edge position within the range that rounding takes.
pub open spec fn edge_in_range(e: EdgeX) -> bool {
    e matches EdgeX::At(num, den) ==> 0 < den <= 0x2_0000 && -0x10_0000_0000 <= num <= 0x10_0000_0000
}

fn row_bounds(left: EdgeX, right: EdgeX) -> (r: Option<(i64, i64)>)
    requires
        edge_in_range(left),
        edge_in_range(right),
    ensures
        match row_span(left, right) {
            None => r is None,
            Some((a, b)) => r == Some((a as i64, b as i64)) && 0 <= a <= 319 && 0 <= b <= 319,
        },
{
    match left {
        EdgeX::At(ln, ld) => if ln <= 319 * ld {
            let draw_left = round_of(ln, ld);
            let draw_left = if draw_left < 0 {
                0
            } else {
                draw_left
            };
            proof {
                if ln >= 0 {
                    assert((2 * ln + ld) / (2 * ld) <= 319) by (nonlinear_arith)
                        requires
                            0 <= ln <= 319 * ld,
                            ld > 0,
                    ;
                } else {
                    assert((-2 * ln + ld) / (2 * ld) >= 0) by (nonlinear_arith)
                        requires
                            ln < 0,
                            ld > 0,
                    ;
                }
            }
            match right {
                EdgeX::At(rn, rd) => if rn >= 0 {
                    let draw_right = round_of(rn, rd);
                    assert((2 * rn + rd) / (2 * rd) >= 0) by (nonlinear_arith)
                        requires
                            rn >= 0,
                            rd > 0,
                    ;
                    Some((draw_left, if draw_right > 319 {
                        319
                    } else {
                        draw_right
                    }))
                } else {
                    None
                },
                EdgeX::FarRight => Some((draw_left, 319)),
                EdgeX::Nowhere => None,
            }
        } else {
            None
        },
        _ => None,
    }
}

fn hi_of(b: u8) -> (r: u8)
    ensures
        r == hi(b),
        r < 16,
{
    b / 16
}

fn lo_of(b: u8) -> (r: u8)
    ensures
        r == lo(b),
        r < 16,
{
    b % 16
}

fn set_nibble_of(b: u8, odd: bool, n: u8) -> (r: u8)
    ensures
        r == set_nibble(b, odd, n),
{
    if odd {
        (b / 16) * 16 + n % 16
    } else {
        (n % 16) * 16 + b % 16
    }
}

fn drawn_nibble_of(mode: DrawMode, old: u8, bg: u8) -> (r: u8)
    ensures
        r == drawn_nibble(mode, old, bg),
{
    match mode {
        DrawMode::Solid(c) => c % 16,
        DrawMode::Blend => if old % 16 >= 8 {
            old % 16
        } else {
            old % 16 + 8
        },
        DrawMode::Background => bg % 16,
    }
}

fn mode_for(color: u8) -> (r: DrawMode)
    ensures
        r == mode_of(color),
{
    if color < 0x10 {
        DrawMode::Solid(color)
    } else if color == 0x10 {
        DrawMode::Blend
    } else {
        DrawMode::Background
    }
}

fn span_byte_of(mode: DrawMode, old: u8, bg: u8, k: usize, width: usize, min_odd: usize, max_odd: usize) -> (r: u8)
    requires
        width >= 1,
    ensures
        r == span_byte(mode, old, bg, k as int, width as int, min_odd as int, max_odd as int),
{
    let h = if k == 0 && min_odd == 1 {
        hi_of(old)
    } else {
        drawn_nibble_of(mode, hi_of(old), hi_of(bg))
    };
    let l = if k == width - 1 && max_odd == 0 {
        lo_of(old)
    } else {
        drawn_nibble_of(mode, lo_of(old), lo_of(bg))
    };
    (h % 16) * 16 + l % 16
}

impl Video {
    pub open spec fn wf(&self) -> bool {
        &&& self.pages@.len() == NUM_PAGES * VID_PAGE_SIZE
        &&& self.work_buffer < NUM_PAGES
        &&& self.front_buffer < NUM_PAGES
        &&& self.back_buffer < NUM_PAGES
        &&& self.renderer.wf()
    }

    /// The page index that `id` selects.
    pub open spec fn page_of(&self, id: PageId) -> usize {
        match id {
            PageId::Front => self.front_buffer,
            PageId::Back => self.back_buffer,
            PageId::Numbered(n) => if n <= 3 {
                n as usize
            } else {
                0
            },
        }
    }

    /// Page `p` as a blob.
    pub open spec fn page_view(&self, p: int) -> Seq<u8> {
        self.pages@.subrange(p * 32000, p * 32000 + 32000)
    }

    /// The same video state with other page contents.
    pub open spec fn same_but_pages(&self, other: &Video) -> bool {
        &&& self.work_buffer == other.work_buffer
        &&& self.front_buffer == other.front_buffer
        &&& self.back_buffer == other.back_buffer
        &&& self.palette_req == other.palette_req
        &&& self.renderer.palette@ == other.renderer.palette@
    }

    /// Blank pages; drawing and display both start on page 2, the back page is 1.
    pub fn new(renderer: Renderer) -> (r: Video)
        requires
            renderer.wf(),
        ensures
            r.wf(),
            forall|i: int| 0 <= i < r.pages@.len() ==> r.pages@[i] == 0,
            r.work_buffer == 2,
            r.front_buffer == 2,
            r.back_buffer == 1,
            r.palette_req == PaletteRequest::Keep,
            r.renderer.palette@ == renderer.palette@,
    {
        Video {
            hline_y: 0,
            pages: vec![0u8; NUM_PAGES * VID_PAGE_SIZE],
            work_buffer: 2,
            front_buffer: 2,
            back_buffer: 1,
            palette_req: PaletteRequest::Keep,
            renderer,
        }
    }

    fn get_page(&self, page_id: PageId) -> (r: usize)
        requires
            self.wf(),
        ensures
            r == self.page_of(page_id),
            r < NUM_PAGES,
    {
        match page_id {
            PageId::Front => self.front_buffer,
            PageId::Back => self.back_buffer,
            PageId::Numbered(n) => if n <= 3 {
                n as usize
            } else {
                0
            },
        }
    }

    /// The byte at `offset` of page `page`.
    pub fn read_byte(&self, page: usize, offset: usize) -> (r: u8)
        requires
            self.wf(),
            page < NUM_PAGES,
            offset < VID_PAGE_SIZE,
        ensures
            r == self.pages@[page * 32000 + offset],
    {
        self.pages[page * VID_PAGE_SIZE + offset]
    }

    /// A copy of page `page`.
    pub fn page_bytes(&self, page: usize) -> (r: Vec<u8>)
        requires
            self.wf(),
            page < NUM_PAGES,
        ensures
            r@ == self.page_view(page as int),
    {
        let base = page * VID_PAGE_SIZE;
        let mut out: Vec<u8> = Vec::with_capacity(VID_PAGE_SIZE);
        let mut i: usize = 0;
        while i < VID_PAGE_SIZE
            invariant
                i <= VID_PAGE_SIZE,
                base == page * 32000,
                self.wf(),
                page < NUM_PAGES,
                out@ == self.pages@.subrange(base as int, base + i),
            decreases VID_PAGE_SIZE - i,
        {
            out.push(self.pages[base + i]);
            i = i + 1;
            assert(out@ =~= self.pages@.subrange(base as int, base + i));
        }
        out
    }

    pub fn change_working_buffer(&mut self, page_id: PageId)
        requires
            old(self).wf(),
        ensures
            final(self).wf(),
            final(self).work_buffer == old(self).page_of(page_id),
            final(self).front_buffer == old(self).front_buffer,
            final(self).back_buffer == old(self).back_buffer,
            final(self).pages@ == old(self).pages@,
            final(self).palette_req == old(self).palette_req,
            final(self).renderer.palette@ == old(self).renderer.palette@,
    {
        self.work_buffer = self.get_page(page_id);
    }

    /// Draws one pixel on the work page; off-screen pixels are ignored.
    pub fn draw_point(&mut self, x: i16, y: i16, color: u8)
        requires
            old(self).wf(),
        ensures
            final(self).wf(),
            unchanged_outside(final(self).pages@, old(self).pages@, old(self).work_buffer as int),
            final(self).same_but_pages(old(self)),
            final(self).pages@ == point_drawn(
                old(self).pages@,
                old(self).work_buffer as int,
                x as int,
                y as int,
                color,
            ),
    {
        if x < 0 || x > 319 || y < 0 || y > 199 {
            return;
        }
        let offset: usize = y as usize * ROW_BYTES + x as usize / 2;
        let i = self.work_buffer * VID_PAGE_SIZE + offset;
        let odd = x % 2 == 1;
        let old = self.pages[i];
        let bg = self.pages[offset];
        let n = drawn_nibble_of(mode_for(color), if odd {
            lo_of(old)
        } else {
            hi_of(old)
        }, if odd {
            lo_of(bg)
        } else {
            hi_of(bg)
        });
        self.pages.set(i, set_nibble_of(old, odd, n));
    }

    /// Draws the span from `x1` to `x2` on row `hline_y` of the work page.
    fn draw_span(&mut self, x1: i16, x2: i16, mode: DrawMode)
        requires
            old(self).wf(),
            0 <= old(self).hline_y <= 199,
            0 <= x1 <= 319,
            0 <= x2 <= 319,
        ensures
            final(self).wf(),
            final(self).same_but_pages(old(self)),
            unchanged_outside(final(self).pages@, old(self).pages@, old(self).work_buffer as int),
            final(self).hline_y == old(self).hline_y,
            final(self).pages@ == span_drawn(
                old(self).pages@,
                old(self).work_buffer as int,
                old(self).hline_y as int,
                x1 as int,
                x2 as int,
                mode,
            ),
    {
        let x_max: usize = if x1 <= x2 {
            x2 as usize
        } else {
            x1 as usize
        };
        let x_min: usize = if x1 <= x2 {
            x1 as usize
        } else {
            x2 as usize
        };
        let offset: usize = self.hline_y as usize * ROW_BYTES + x_min / 2;
        let width: usize = x_max / 2 - x_min / 2 + 1;
        let min_odd: usize = x_min % 2;
        let max_odd: usize = x_max % 2;
        let base = self.work_buffer * VID_PAGE_SIZE + offset;
        let ghost old_pages = self.pages@;
        let ghost expected = span_drawn(
            old_pages,
            self.work_buffer as int,
            self.hline_y as int,
            x1 as int,
            x2 as int,
            mode,
        );
        assert(span_geometry(self.hline_y as int, x1 as int, x2 as int) == (
            offset as int,
            width as int,
            min_odd as int,
            max_odd as int,
        ));
        let mut k: usize = 0;
        while k < width
            invariant
                k <= width <= 160,
                offset + width <= 32000,
                base == self.work_buffer * 32000 + offset,
                self.wf(),
                self.same_but_pages(old(self)),
                self.hline_y == old(self).hline_y,
                self.pages@.len() == old_pages.len(),
                old_pages == old(self).pages@,
                forall|j: int|
                    0 <= j < old_pages.len() ==> #[trigger] self.pages@[j] == if base <= j < base + k {
                        expected[j]
                    } else {
                        old_pages[j]
                    },
                forall|j: int| 0 <= j < old_pages.len() ==> #[trigger] expected[j] == if base <= j < base + width {
                    span_byte(mode, old_pages[j], old_pages[offset + (j - base)], j - base, width as int, min_odd as int, max_odd as int)
                } else {
                    old_pages[j]
                },
                expected.len() == old_pages.len(),
            decreases width - k,
        {
            let old = self.pages[base + k];
            let bg = self.pages[offset + k];
            assert(bg == old_pages[offset + k]);
            let b = span_byte_of(mode, old, bg, k, width, min_odd, max_odd);
            self.pages.set(base + k, b);
            k = k + 1;
        }
        assert(self.pages@ =~= expected);
    }

    fn draw_line_normal(&mut self, x1: i16, x2: i16, color: u8)
        requires
            old(self).wf(),
            0 <= old(self).hline_y <= 199,
            0 <= x1 <= 319,
            0 <= x2 <= 319,
            color < 0x10,
        ensures
            final(self).wf(),
            final(self).same_but_pages(old(self)),
            unchanged_outside(final(self).pages@, old(self).pages@, old(self).work_buffer as int),
            final(self).hline_y == old(self).hline_y,
            final(self).pages@ == span_drawn(
                old(self).pages@,
                old(self).work_buffer as int,
                old(self).hline_y as int,
                x1 as int,
                x2 as int,
                DrawMode::Solid(color),
            ),
    {
        self.draw_span(x1, x2, DrawMode::Solid(color));
    }

    fn draw_line_from_bg(&mut self, x1: i16, x2: i16)
        requires
            old(self).wf(),
            0 <= old(self).hline_y <= 199,
            0 <= x1 <= 319,
            0 <= x2 <= 319,
        ensures
            final(self).wf(),
            final(self).same_but_pages(old(self)),
            unchanged_outside(final(self).pages@, old(self).pages@, old(self).work_buffer as int),
            final(self).hline_y == old(self).hline_y,
            final(self).pages@ == span_drawn(
                old(self).pages@,
                old(self).work_buffer as int,
                old(self).hline_y as int,
                x1 as int,
                x2 as int,
                DrawMode::Background,
            ),
    {
        self.draw_span(x1, x2, DrawMode::Background);
    }

    fn draw_line_blend(&mut self, x1: i16, x2: i16)
        requires
            old(self).wf(),
            0 <= old(self).hline_y <= 199,
            0 <= x1 <= 319,
            0 <= x2 <= 319,
        ensures
            final(self).wf(),
            final(self).same_but_pages(old(self)),
            unchanged_outside(final(self).pages@, old(self).pages@, old(self).work_buffer as int),
            final(self).hline_y == old(self).hline_y,
            final(self).pages@ == span_drawn(
                old(self).pages@,
                old(self).work_buffer as int,
                old(self).hline_y as int,
                x1 as int,
                x2 as int,
                DrawMode::Blend,
            ),
    {
        self.draw_span(x1, x2, DrawMode::Blend);
    }

    /// Fills a polygon around `pt` on the work page. A polygon of no width,
    /// height 1 and four vertices is the single pixel at `pt`.
    /// Edges are walked from the top, the left one backwards from the last
    /// vertex and the right one forwards from the first, one row at a time;
    /// each row is clipped to the screen and drawn in the colour's mode.
    pub fn fill_polygon(&mut self, color: u8, pt: Point, polygon: Polygon)
        requires
            old(self).wf(),
            polygon.points@.len() < 64,
        ensures
            final(self).wf(),
            final(self).same_but_pages(old(self)),
            final(self).pages@ == polygon_filled(
                old(self).pages@,
                old(self).work_buffer as int,
                color,
                pt,
                polygon.bbw,
                polygon.bbh,
                polygon.points@,
            ),
            unchanged_outside(final(self).pages@, old(self).pages@, old(self).work_buffer as int),
            polygon.bbw == 0 && polygon.bbh == 1 && polygon.points@.len() == 4 ==> final(self).pages@ == point_drawn(
                old(self).pages@,
                old(self).work_buffer as int,
                pt.x as int,
                pt.y as int,
                color,
            ),
    {
        let ghost work = self.work_buffer as int;
        let ghost pts = polygon.points@;
        let ghost target = polygon_filled(
            self.pages@,
            work,
            color,
            pt,
            polygon.bbw,
            polygon.bbh,
            pts,
        );
        let n = polygon.points.len();
        if polygon.bbw == 0 && polygon.bbh == 1 && n == 4 {
            self.draw_point(pt.x, pt.y, color);
            return;
        }
        let x1: i32 = pt.x as i32 - half_of(polygon.bbw);
        let x2: i32 = pt.x as i32 + half_of(polygon.bbw);
        let y1: i32 = pt.y as i32 - half_of(polygon.bbh);
        let y2: i32 = pt.y as i32 + half_of(polygon.bbh);
        if x1 > 319 || x2 < 0 || y1 > 199 || y2 < 0 {
            return;
        }
        self.hline_y = y1;
        let half = n / 2;
        let mut i: usize = 0;
        while i < half
            invariant
                n == pts.len() < 64,
                pts == polygon.points@,
                work == old(self).work_buffer,
                half == n / 2,
                i <= half,
                -0x1_0000 <= x1 <= 0x1_0000,
                self.hline_y <= 199,
                self.wf(),
                self.same_but_pages(old(self)),
                unchanged_outside(self.pages@, old(self).pages@, work),
                edges_filled(self.pages@, work, color, pts, x1 as int, self.hline_y as int, i as int)
                    == target,
                target == polygon_filled(old(self).pages@, work, color, pt, polygon.bbw, polygon.bbh, pts),
                !(polygon.bbw == 0 && polygon.bbh == 1 && n == 4),
            decreases half - i,
        {
            let curr_left = polygon.points[n - 1 - i];
            let next_left = polygon.points[n - 2 - i];
            let curr_right = polygon.points[i];
            let next_right = polygon.points[i + 1];
            let h: i64 = next_left.y as i64 - curr_left.y as i64;
            if h > 0 {
                let lx0: i64 = curr_left.x as i64 + x1 as i64;
                let ldx: i64 = next_left.x as i64 - curr_left.x as i64;
                let rx0: i64 = curr_right.x as i64 + x1 as i64;
                let rdx: i64 = next_right.x as i64 - curr_right.x as i64;
                let rdy: i64 = next_right.y as i64 - curr_right.y as i64;
                let ghost start_pages = self.pages@;
                let ghost start_y = self.hline_y as int;
                let mut k: i64 = 0;
                while k < h
                    invariant
                        0 <= k <= h <= 0x1_0000,
                        -0x2_0000 <= lx0 <= 0x2_0000,
                        -0x2_0000 <= ldx <= 0x2_0000,
                        -0x2_0000 <= rx0 <= 0x2_0000,
                        -0x2_0000 <= rdx <= 0x2_0000,
                        -0x2_0000 <= rdy <= 0x2_0000,
                        work == old(self).work_buffer,
                        self.hline_y <= 199,
                        self.wf(),
                        self.same_but_pages(old(self)),
                        unchanged_outside(self.pages@, old(self).pages@, work),
                        rows_filled(self.pages@, work, color, self.hline_y as int, k as int, h as int, lx0 as int, ldx as int, rx0 as int, rdx as int, rdy as int)
                            == rows_filled(start_pages, work, color, start_y, 0, h as int, lx0 as int, ldx as int, rx0 as int, rdx as int, rdy as int),
                        n == pts.len() < 64,
                        pts == polygon.points@,
                        half == n / 2,
                        i < half,
                        h == pts[n - 2 - i].y - pts[n - 1 - i].y,
                        lx0 == pts[n - 1 - i].x + x1,
                        ldx == pts[n - 2 - i].x - pts[n - 1 - i].x,
                        rx0 == pts[i as int].x + x1,
                        rdx == pts[i + 1].x - pts[i as int].x,
                        rdy == pts[i + 1].y - pts[i as int].y,
                        edges_filled(start_pages, work, color, pts, x1 as int, start_y, i as int) == target,
                        target == polygon_filled(old(self).pages@, work, color, pt, polygon.bbw, polygon.bbh, pts),
                        !(polygon.bbw == 0 && polygon.bbh == 1 && n == 4),
                    decreases h - k,
                {
                    let left = edge_x(lx0, ldx, h, k);
                    let right = edge_x(rx0, rdx, rdy, k);
                    let bounds = row_bounds(left, right);
                    if self.hline_y >= 0 {
                        if let Some((draw_left, draw_right)) = bounds {
                            let draw_left = draw_left as i16;
                            let draw_right = draw_right as i16;
                            if color < 0x10 {
                                self.draw_line_normal(draw_left, draw_right, color);
                            } else if color > 0x10 {
                                self.draw_line_from_bg(draw_left, draw_right);
                            } else {
                                self.draw_line_blend(draw_left, draw_right);
                            }
                        }
                    }
                    self.hline_y = self.hline_y + 1;
                    if self.hline_y > 199 {
                        return;
                    }
                    k = k + 1;
                }
            }
            i = i + 1;
        }
    }

    /// Reads the polygon record at the stream's position and draws it around
    /// `pt` on the work page: a leaf (command 0xC0 and up) is filled, taking
    /// its colour from the command where `color` has its top bit set; a
    /// hierarchy (low six bits 2) draws each child in turn. Where the command,
    /// or a leaf's vertex record, is bad or cut short, nothing is drawn.
    /// Hierarchies nest
    /// at most `MAX_HIERARCHY_DEPTH` deep; a deeper record, which would
    /// otherwise let a record that names itself recurse without end, fails
    /// with `HierarchyTooDeep`.
    pub fn read_and_draw_polygon(&mut self, stream: &mut ByteCursor, color: u8, zoom: u16, pt: Point) -> (r: Result<(), VideoError>)
        requires
            old(self).wf(),
        ensures
            final(self).wf(),
            final(self).same_but_pages(old(self)),
            unchanged_outside(final(self).pages@, old(self).pages@, old(self).work_buffer as int),
            final(stream).data@ == old(stream).data@,
            match record_drawn(
                old(self).pages@,
                old(self).work_buffer as int,
                old(stream).data@,
                old(stream).pos as int,
                color,
                zoom,
                pt,
                MAX_HIERARCHY_DEPTH as nat,
            ) {
                Ok(p) => r is Ok && final(self).pages@ == p,
                Err(e) => r == Err::<(), VideoError>(e),
            },
            ({
                let s = old(stream).data@;
                let p = old(stream).pos as int;
                !old(stream).can_read(1) || (s[p] < 0xC0 && s[p] % 64 != 2) || (s[p] >= 0xC0
                    && vertices_at(s, p + 1, zoom) is Err)
            }) ==> final(self).pages@ == old(self).pages@,
    {
        self.draw_polygon_nested(stream, color, zoom, pt, MAX_HIERARCHY_DEPTH)
    }

    fn draw_polygon_nested(
        &mut self,
        stream: &mut ByteCursor,
        color: u8,
        zoom: u16,
        pt: Point,
        depth: u8,
    ) -> (r: Result<(), VideoError>)
        requires
            old(self).wf(),
        ensures
            final(self).wf(),
            final(self).same_but_pages(old(self)),
            unchanged_outside(final(self).pages@, old(self).pages@, old(self).work_buffer as int),
            final(stream).data@ == old(stream).data@,
            match record_drawn(
                old(self).pages@,
                old(self).work_buffer as int,
                old(stream).data@,
                old(stream).pos as int,
                color,
                zoom,
                pt,
                depth as nat,
            ) {
                Ok(p) => r is Ok && final(self).pages@ == p,
                Err(e) => r == Err::<(), VideoError>(e),
            },
            ({
                let s = old(stream).data@;
                let p = old(stream).pos as int;
                !old(stream).can_read(1) || (s[p] < 0xC0 && s[p] % 64 != 2) || (s[p] >= 0xC0
                    && vertices_at(s, p + 1, zoom) is Err)
            }) ==> final(self).pages@ == old(self).pages@,
        decreases depth, 1nat,
    {
        let command = match stream.read_u8() {
            Ok(c) => c,
            Err(e) => {
                return Err(VideoError::Io(e));
            },
        };
        if command >= 0xC0 {
            let color = if color & 0x80 != 0 {
                command & 0x3F
            } else {
                color
            };
            let polygon = match Polygon::read_vertices(stream, zoom) {
                Ok(p) => p,
                Err(ShapeError::Io(e)) => {
                    return Err(VideoError::Io(e));
                },
                Err(ShapeError::InvalidPointCount(n)) => {
                    return Err(VideoError::InvalidPointCount(n));
                },
            };
            self.fill_polygon(color, pt, polygon);
            Ok(())
        } else if command % 64 == 2 {
            self.read_and_draw_polygon_hierarchy(stream, zoom, pt, depth)
        } else {
            Err(VideoError::UnexpectedCommand)
        }
    }

    fn read_scaled(stream: &mut ByteCursor, zoom: u16) -> (r: Result<i16, VideoError>)
        ensures
            final(stream).data@ == old(stream).data@,
            old(stream).can_read(1) ==> r == Ok::<i16, VideoError>(
                scale(old(stream).data@[old(stream).pos as int], zoom),
            ) && final(stream).pos == old(stream).pos + 1,
            !old(stream).can_read(1) ==> r == Err::<i16, VideoError>(VideoError::Io(ReadError::UnexpectedEof)),
    {
        match stream.read_u8() {
            Ok(b) => Ok(scale_byte(b, zoom)),
            Err(e) => Err(VideoError::Io(e)),
        }
    }

    fn read_and_draw_polygon_hierarchy(
        &mut self,
        stream: &mut ByteCursor,
        zoom: u16,
        pgc: Point,
        depth: u8,
    ) -> (r: Result<(), VideoError>)
        requires
            old(self).wf(),
        ensures
            final(self).wf(),
            final(self).same_but_pages(old(self)),
            unchanged_outside(final(self).pages@, old(self).pages@, old(self).work_buffer as int),
            final(stream).data@ == old(stream).data@,
            match hierarchy_drawn(
                old(self).pages@,
                old(self).work_buffer as int,
                old(stream).data@,
                old(stream).pos as int,
                zoom,
                pgc,
                depth as nat,
            ) {
                Ok(p) => r is Ok && final(self).pages@ == p && final(stream).pos == headers_end(
                    old(stream).data@,
                    old(stream).pos + 3,
                    (old(stream).data@[old(stream).pos + 2] + 1) as nat,
                ),
                Err(e) => r == Err::<(), VideoError>(e),
            },
        decreases depth, 0nat,
    {
        let ghost work = self.work_buffer as int;
        let ghost s = stream.data@;
        let ghost target = hierarchy_drawn(self.pages@, work, s, stream.pos as int, zoom, pgc, depth as nat);
        if depth == 0 {
            return Err(VideoError::HierarchyTooDeep);
        }
        let dx = Video::read_scaled(stream, zoom)?;
        let dy = Video::read_scaled(stream, zoom)?;
        let pt = Point { x: pgc.x.wrapping_sub(dx), y: pgc.y.wrapping_sub(dy) };
        let childs = match stream.read_u8() {
            Ok(c) => c,
            Err(e) => {
                return Err(VideoError::Io(e));
            },
        };
        let mut child: u16 = 0;
        while child <= childs as u16
            invariant
                child <= childs as u16 + 1,
                depth > 0,
                self.wf(),
                self.same_but_pages(old(self)),
                unchanged_outside(self.pages@, old(self).pages@, old(self).work_buffer as int),
                stream.data@ == old(stream).data@,
                s == old(stream).data@,
                work == old(self).work_buffer,
                target == hierarchy_drawn(old(self).pages@, work, s, old(stream).pos as int, zoom, pgc, depth as nat),
                headers_end(s, stream.pos as int, (childs as u16 + 1 - child) as nat) == headers_end(
                    s,
                    old(stream).pos + 3,
                    (childs + 1) as nat,
                ),
                childs == s[old(stream).pos + 2],
                match children_drawn(self.pages@, work, s, stream.pos as int, zoom, pt, depth as nat, (childs as u16 + 1 - child) as nat) {
                    Ok(p) => target == Ok::<Seq<u8>, VideoError>(p),
                    Err(e) => target == Err::<Seq<u8>, VideoError>(e),
                },
            decreases childs as u16 + 1 - child,
        {
            let raw_offset = match stream.read_u16() {
                Ok(v) => v,
                Err(e) => {
                    return Err(VideoError::Io(e));
                },
            };
            let cx = Video::read_scaled(stream, zoom)?;
            let cy = Video::read_scaled(stream, zoom)?;
            let po = Point { x: pt.x.wrapping_add(cx), y: pt.y.wrapping_add(cy) };
            let offset = raw_offset & 0x7FFF;
            let mut color: u8 = 0xFF;
            if raw_offset & 0x8000 != 0 {
                color = match stream.read_u8() {
                    Ok(c) => c & 0x7F,
                    Err(e) => {
                        return Err(VideoError::Io(e));
                    },
                };
                stream.skip(1);
            }
            let bkp_offset = stream.position();
            assert(offset <= 0x7FFF) by (bit_vector)
                requires
                    offset == raw_offset & 0x7FFF,
            ;
            stream.set_position(offset as usize * 2);
            self.draw_polygon_nested(stream, color, zoom, po, depth - 1)?;
            stream.set_position(bkp_offset);
            child = child + 1;
        }
        Ok(())
    }

    /// Sets every byte of the page to `color` in both nibbles.
    pub fn fill_page(&mut self, page_id: PageId, color: u8)
        requires
            old(self).wf(),
        ensures
            final(self).wf(),
            final(self).same_but_pages(old(self)),
            ({
                let p = old(self).page_of(page_id) as int;
                forall|i: int|
                    0 <= i < NUM_PAGES * VID_PAGE_SIZE ==> #[trigger] final(self).pages@[i] == if p
                        * 32000 <= i < p * 32000 + 32000 {
                        fill_byte(color)
                    } else {
                        old(self).pages@[i]
                    }
            }),
    {
        let p = self.get_page(page_id);
        let base = p * VID_PAGE_SIZE;
        let byte_color: u8 = (color << 4u8) | color;
        let mut i: usize = 0;
        while i < VID_PAGE_SIZE
            invariant
                i <= VID_PAGE_SIZE,
                base == p * 32000,
                p == old(self).page_of(page_id),
                byte_color == fill_byte(color),
                self.wf(),
                self.same_but_pages(old(self)),
                forall|j: int|
                    0 <= j < NUM_PAGES * VID_PAGE_SIZE ==> #[trigger] self.pages@[j] == if base <= j
                        < base + i {
                        byte_color
                    } else {
                        old(self).pages@[j]
                    },
            decreases VID_PAGE_SIZE - i,
        {
            self.pages.set(base + i, byte_color);
            i = i + 1;
        }
    }

    /// Copies page `src_page_id` onto `dst_page_id`. A numbered source with
    /// bit 0x80 set names page `n & 3` and, where `vscroll` is within
    /// 199, moves `200 - |vscroll|` bytes, shifted by `vscroll`; otherwise
    /// the whole page that the source names is copied (any other number
    /// outside 0 to 3 naming page 0). Nothing changes where both ids are equal or
    /// name the same page.
    pub fn copy_page(&mut self, src_page_id: PageId, dst_page_id: PageId, vscroll: i16)
        requires
            old(self).wf(),
        ensures
            final(self).wf(),
            final(self).same_but_pages(old(self)),
            copy_page_result(*old(self), src_page_id, dst_page_id, vscroll, final(self).pages@),
    {
        if src_page_id == dst_page_id {
            return;
        }
        let scrolled = match src_page_id {
            PageId::Numbered(n) => n & 0x80 != 0,
            _ => false,
        };
        let src = match src_page_id {
            PageId::Numbered(n) => if scrolled {
                PageId::Numbered(n & 3)
            } else {
                src_page_id
            },
            other => other,
        };
        let s = self.get_page(src);
        let d = self.get_page(dst_page_id);
        if s == d {
            return;
        }
        let partial = scrolled && -199 <= vscroll && vscroll <= 199;
        let (len, so, dst_off): (usize, usize, usize) = if partial {
            if vscroll < 0 {
                (200 - (-vscroll) as usize, (-vscroll) as usize, 0)
            } else {
                (200 - vscroll as usize, 0, vscroll as usize)
            }
        } else {
            (VID_PAGE_SIZE, 0, 0)
        };
        let src_base = s * VID_PAGE_SIZE + so;
        let dst_base = d * VID_PAGE_SIZE + dst_off;
        let mut i: usize = 0;
        while i < len
            invariant
                i <= len,
                so + len <= 32000,
                dst_off + len <= 32000,
                s < 4,
                d < 4,
                s != d,
                src_base == s * 32000 + so,
                dst_base == d * 32000 + dst_off,
                self.wf(),
                self.same_but_pages(old(self)),
                forall|j: int|
                    0 <= j < NUM_PAGES * VID_PAGE_SIZE ==> #[trigger] self.pages@[j] == if dst_base
                        <= j < dst_base + i {
                        old(self).pages@[src_base + (j - dst_base)]
                    } else {
                        old(self).pages@[j]
                    },
            decreases len - i,
        {
            let b = self.pages[src_base + i];
            self.pages.set(dst_base + i, b);
            i = i + 1;
        }
    }

    /// Decodes a four-plane background blob into page 0.
    pub fn copy_bg(&mut self, src_data: &Vec<u8>) -> (r: Result<(), VideoError>)
        requires
            old(self).wf(),
        ensures
            final(self).wf(),
            final(self).same_but_pages(old(self)),
            src_data@.len() < 32000 ==> r == Err::<(), VideoError>(VideoError::BackgroundTooShort)
                && final(self).pages@ == old(self).pages@,
            src_data@.len() >= 32000 ==> r is Ok && forall|i: int|
                0 <= i < NUM_PAGES * VID_PAGE_SIZE ==> #[trigger] final(self).pages@[i] == if i
                    < 32000 {
                    bg_byte(src_data@, i)
                } else {
                    old(self).pages@[i]
                },
    {
        if src_data.len() < 4 * 8000 {
            return Err(VideoError::BackgroundTooShort);
        }
        let mut n: usize = 0;
        while n < VID_PAGE_SIZE
            invariant
                n <= VID_PAGE_SIZE,
                src_data@.len() >= 32000,
                self.wf(),
                self.same_but_pages(old(self)),
                forall|j: int|
                    0 <= j < NUM_PAGES * VID_PAGE_SIZE ==> #[trigger] self.pages@[j] == if j < n {
                        bg_byte(src_data@, j)
                    } else {
                        old(self).pages@[j]
                    },
            decreases VID_PAGE_SIZE - n,
        {
            let i = n / 4;
            let k = (2 * (n % 4)) as u8;
            let left = bg_pixel_of(src_data, i, k);
            let right = bg_pixel_of(src_data, i, k + 1);
            self.pages.set(n, left * 16 + right);
            n = n + 1;
        }
        Ok(())
    }

    fn change_palette(&mut self, palette_id: u8, palette_segment: &mut ByteCursor) -> (r: Result<(), VideoError>)
        requires
            old(self).wf(),
        ensures
            final(self).wf(),
            final(self).pages@ == old(self).pages@,
            final(self).work_buffer == old(self).work_buffer,
            final(self).front_buffer == old(self).front_buffer,
            final(self).back_buffer == old(self).back_buffer,
            final(self).palette_req == old(self).palette_req,
            final(palette_segment).data@ == old(palette_segment).data@,
            palette_id >= NUM_PALETTES ==> r == Err::<(), VideoError>(VideoError::InvalidPalette(palette_id))
                && final(self).renderer.palette@ == old(self).renderer.palette@,
            palette_id < NUM_PALETTES ==> {
                let at = old(palette_segment).at(palette_id * 32);
                &&& at.can_read(32) ==> r is Ok && forall|i: int|
                    0 <= i < 16 ==> #[trigger] final(self).renderer.palette@[i] == crate::renderer::expand_rgb444(
                        crate::cursor::be16_at(at.data@, palette_id * 32 + 2 * i),
                    )
                &&& !at.can_read(32) ==> r == Err::<(), VideoError>(
                    VideoError::RendererError(RendererError::Io(ReadError::UnexpectedEof)),
                )
            },
    {
        if palette_id >= NUM_PALETTES {
            return Err(VideoError::InvalidPalette(palette_id));
        }
        palette_segment.set_position(palette_id as usize * 32);
        match self.renderer.set_palette(palette_segment) {
            Ok(()) => Ok(()),
            Err(e) => Err(VideoError::RendererError(e)),
        }
    }

    /// Selects the page to show and applies a pending palette change; the
    /// frame to present is then `frame()`.
    pub fn update_display(&mut self, page_id: PageId, palette_segment: &mut ByteCursor) -> (r: Result<(), VideoError>)
        requires
            old(self).wf(),
        ensures
            final(self).wf(),
            final(self).pages@ == old(self).pages@,
            final(self).work_buffer == old(self).work_buffer,
            (final(self).front_buffer, final(self).back_buffer) == displayed(*old(self), page_id),
            final(palette_segment).data@ == old(palette_segment).data@,
            old(self).palette_req == PaletteRequest::Keep ==> r is Ok && final(self).palette_req
                == PaletteRequest::Keep && final(self).renderer.palette@ == old(self).renderer.palette@,
            old(self).palette_req matches PaletteRequest::Change(p) ==> {
                let at = old(palette_segment).at(p * 32);
                &&& p >= NUM_PALETTES ==> r == Err::<(), VideoError>(VideoError::InvalidPalette(p))
                &&& p < NUM_PALETTES && at.can_read(32) ==> r is Ok && final(self).palette_req
                    == PaletteRequest::Keep && forall|i: int|
                    0 <= i < 16 ==> #[trigger] final(self).renderer.palette@[i]
                        == crate::renderer::expand_rgb444(
                        crate::cursor::be16_at(at.data@, p * 32 + 2 * i),
                    )
                &&& p < NUM_PALETTES && !at.can_read(32) ==> r == Err::<(), VideoError>(
                    VideoError::RendererError(RendererError::Io(ReadError::UnexpectedEof)),
                )
            },
    {
        match page_id {
            PageId::Numbered(_) => {
                self.front_buffer = self.get_page(page_id);
            },
            PageId::Back => {
                let front = self.front_buffer;
                self.front_buffer = self.back_buffer;
                self.back_buffer = front;
            },
            PageId::Front => {},
        }
        if let PaletteRequest::Change(palette_id) = self.palette_req {
            self.change_palette(palette_id, palette_segment)?;
            self.palette_req = PaletteRequest::Keep;
        }
        Ok(())
    }

    /// The front page, scaled and coloured for the display.
    pub fn frame(&self) -> (r: Vec<u32>)
        requires
            self.wf(),
        ensures
            r@.len() == SCALED_W * SCALED_H,
            forall|i: int|
                0 <= i < SCALED_W * SCALED_H ==> #[trigger] r@[i] == crate::renderer::scaled_pixel(
                    self.renderer.palette@,
                    self.page_view(self.front_buffer as int),
                    i,
                ),
    {
        let page = self.page_bytes(self.front_buffer);
        self.renderer.update_display(&page)
    }

    pub fn request_palette(&mut self, palette_request: PaletteRequest)
        requires
            old(self).wf(),
        ensures
            final(self).wf(),
            final(self).palette_req == palette_request,
            final(self).pages@ == old(self).pages@,
            final(self).work_buffer == old(self).work_buffer,
            final(self).front_buffer == old(self).front_buffer,
            final(self).back_buffer == old(self).back_buffer,
            final(self).renderer.palette@ == old(self).renderer.palette@,
    {
        self.palette_req = palette_request;
    }
}

/// Page indices stay within 0 to 3 whatever page a blit names, and
/// naming 0xFF swaps the front and back pages.
pub proof fn lemma_blit_pages(v: Video, raw: u8)
    requires
        v.wf(),
    ensures
        displayed(v, page_id_of(raw)).0 < NUM_PAGES,
        displayed(v, page_id_of(raw)).1 < NUM_PAGES,
        displayed(v, page_id_of(0xFF)) == (v.back_buffer, v.front_buffer),
{
}

/// Drawing one pixel leaves the pages alone where it is off-screen, and
/// otherwise changes only the pixel's own nibble of its byte.
pub proof fn lemma_point_touches_one_nibble(pages: Seq<u8>, work: int, x: int, y: int, color: u8)
    requires
        pages.len() == NUM_PAGES * VID_PAGE_SIZE,
        0 <= work < NUM_PAGES,
    ensures
        !(0 <= x <= 319 && 0 <= y <= 199) ==> point_drawn(pages, work, x, y, color) == pages,
        0 <= x <= 319 && 0 <= y <= 199 ==> {
            let i = work * 32000 + y * 160 + x / 2;
            let after = point_drawn(pages, work, x, y, color);
            &&& after.len() == pages.len()
            &&& forall|j: int| 0 <= j < pages.len() && j != i ==> #[trigger] after[j] == pages[j]
            &&& nibble(after[i], x % 2 == 0) == nibble(pages[i], x % 2 == 0)
        },
{
}

} // verus!
