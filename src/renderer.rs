//! The 16-colour palette and the scaled ARGB frame.

use vstd::prelude::*;
use crate::cursor::{be16_at, ByteCursor, ReadError};

verus! {

pub const SCALE_FACTOR: usize = 3;
pub const SCREEN_W: usize = 320;
pub const SCREEN_H: usize = 200;
pub const SCALED_W: usize = 960;
pub const SCALED_H: usize = 600;
pub const NUM_COLORS: usize = 16;

#[derive(Debug, PartialEq, Eq, Structural, Clone, Copy)]
pub enum RendererError {
    Io(ReadError),
}

/// An RGB444 value widened to ARGB32 (alpha zero): each 4-bit channel `n`
/// becomes `n << 4 | n`.
pub open spec fn expand_rgb444(c: u16) -> u32 {
    let r = (c / 0x100) % 0x10;
    let g = (c / 0x10) % 0x10;
    let b = c % 0x10;
    (r * 0x11 * 0x1_0000 + g * 0x11 * 0x100 + b * 0x11) as u32
}

/// The colour index of pixel (`x`, `y`) of a 4-bit page: the high nibble
/// holds the even column.
pub open spec fn page_pixel(page: Seq<u8>, x: int, y: int) -> int {
    let b = page[y * 160 + x / 2] as int;
    if x % 2 == 0 {
        b / 16
    } else {
        b % 16
    }
}

/// Pixel `i` of the scaled frame: each page pixel becomes a 3x3 block.
pub open spec fn scaled_pixel(palette: Seq<u32>, page: Seq<u8>, i: int) -> u32 {
    palette[page_pixel(page, (i % 960) / 3, (i / 960) / 3)]
}

/// Turns 4-bit pages into scaled ARGB frames through a 16-entry palette.
pub struct Renderer {
    pub palette: Vec<u32>,
}

impl Renderer {
    pub open spec fn wf(&self) -> bool {
        self.palette@.len() == NUM_COLORS
    }

    /// A renderer whose palette is all black.
    pub fn new() -> (r: Renderer)
        ensures
            r.wf(),
            forall|i: int| 0 <= i < 16 ==> r.palette@[i] == 0,
    {
        Renderer { palette: vec![0u32; NUM_COLORS] }
    }

    /// Reads 16 big-endian RGB444 entries from the cursor into the palette.
    pub fn set_palette(&mut self, cursor: &mut ByteCursor) -> (r: Result<(), RendererError>)
        requires
            old(self).wf(),
        ensures
            final(self).wf(),
            final(cursor).data@ == old(cursor).data@,
            old(cursor).can_read(32) ==> r is Ok && final(cursor).pos == old(cursor).pos + 32
                && forall|i: int|
                0 <= i < 16 ==> #[trigger] final(self).palette@[i] == expand_rgb444(
                    be16_at(old(cursor).data@, old(cursor).pos + 2 * i),
                ),
            !old(cursor).can_read(32) ==> r == Err::<(), RendererError>(
                RendererError::Io(ReadError::UnexpectedEof),
            ),
    {
        let ghost pos0 = cursor.pos as int;
        let mut i: usize = 0;
        while i < NUM_COLORS
            invariant
                i <= NUM_COLORS,
                self.wf(),
                cursor.data@ == old(cursor).data@,
                pos0 == old(cursor).pos,
                cursor.pos == pos0 + 2 * i,
                i > 0 ==> cursor.pos <= cursor.data@.len(),
                forall|k: int|
                    0 <= k < i ==> #[trigger] self.palette@[k] == expand_rgb444(
                        be16_at(cursor.data@, pos0 + 2 * k),
                    ),
            decreases NUM_COLORS - i,
        {
            let color444 = match cursor.read_u16() {
                Ok(c) => c,
                Err(e) => {
                    return Err(RendererError::Io(e));
                },
            };
            let r = (color444 / 0x100) % 0x10;
            let g = (color444 / 0x10) % 0x10;
            let b = color444 % 0x10;
            let r = r * 0x11;
            let g = g * 0x11;
            let b = b * 0x11;
            self.palette.set(i, r as u32 * 0x1_0000 + g as u32 * 0x100 + b as u32);
            i = i + 1;
        }
        Ok(())
    }

    /// The page `src` scaled by three, as ARGB pixels row by row, for the
    /// host to present.
    pub fn update_display(&self, src: &Vec<u8>) -> (r: Vec<u32>)
        requires
            self.wf(),
            src@.len() == 32000,
        ensures
            r@.len() == SCALED_W * SCALED_H,
            forall|i: int| 0 <= i < SCALED_W * SCALED_H ==> #[trigger] r@[i] == scaled_pixel(self.palette@, src@, i),
    {
        let mut out: Vec<u32> = Vec::with_capacity(SCALED_W * SCALED_H);
        let mut py: usize = 0;
        while py < SCALED_H
            invariant
                py <= SCALED_H,
                self.wf(),
                src@.len() == 32000,
                out@.len() == py * SCALED_W,
                forall|i: int| 0 <= i < out@.len() ==> #[trigger] out@[i] == scaled_pixel(self.palette@, src@, i),
            decreases SCALED_H - py,
        {
            let mut px: usize = 0;
            while px < SCALED_W
                invariant
                    py < SCALED_H,
                    px <= SCALED_W,
                    self.wf(),
                    src@.len() == 32000,
                    out@.len() == py * SCALED_W + px,
                    forall|i: int| 0 <= i < out@.len() ==> #[trigger] out@[i] == scaled_pixel(self.palette@, src@, i),
                decreases SCALED_W - px,
            {
                let x = px / SCALE_FACTOR;
                let y = py / SCALE_FACTOR;
                let byte = src[y * 160 + x / 2];
                let index = if x % 2 == 0 {
                    byte / 16
                } else {
                    byte % 16
                };
                let ghost i = out@.len() as int;
                proof {
                    assert(i % 960 == px as int && i / 960 == py as int) by (nonlinear_arith)
                        requires
                            i == py * 960 + px,
                            0 <= px < 960,
                            0 <= py;
                }
                out.push(self.palette[index as usize]);
                px = px + 1;
            }
            py = py + 1;
        }
        out
    }
}

} // verus!
