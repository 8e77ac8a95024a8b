//! Bitmap font atlases and the routines that turn one glyph into a buffer of
//! big-endian 5-6-5 pixels.
use vstd::prelude::*;

use crate::color::{blend565, blend_pixel, Rgb};
use crate::raster::{color_hi, color_lo};

verus! {

/// A font atlas: glyph images laid out in a grid of `font_width_chars` by
/// `font_height_chars` cells, each `char_width_px` by `char_height_px`.
/// The alpha variant has one opacity byte per pixel; the 1-bit variant one
/// bit per pixel, most significant bit first. Rows of the atlas follow each
/// other without padding.
pub struct Font<'a> {
    pub font: &'a [u8],
    pub font_width_chars: usize,
    pub font_height_chars: usize,
    pub char_width_px: usize,
    pub char_height_px: usize,
}

/// Is bit `i` (0 is the most significant) of `byte` set?
pub open spec fn bit_set(byte: u8, i: u8) -> bool {
    byte & (0x80u8 >> i) != 0
}

proof fn lemma_glyph_index(cw: int, ch: int, fwc: int, fhc: int, cx: int, cy: int, p: int)
    requires
        0 < cw <= 255,
        0 < ch <= 255,
        0 < fwc <= 255,
        0 < fhc <= 255,
        0 <= cx < fwc,
        0 <= cy < fhc,
        0 <= p < cw * ch,
    ensures
        0 <= p / cw < ch,
        0 <= (cy * ch + p / cw) * (cw * fwc) + cx * cw + p % cw < cw * fwc * ch * fhc,
        cw * fwc * ch * fhc <= 255 * 255 * 255 * 255,
        cy * ch + p / cw <= 255 * 255,
        cx * cw + p % cw < cw * fwc,
{
    let row = p / cw;
    let col = p % cw;
    assert(p == cw * row + col) by (nonlinear_arith)
        requires
            row == p / cw,
            col == p % cw,
            cw > 0,
    ;
    assert(0 <= col < cw) by (nonlinear_arith)
        requires
            col == p % cw,
            cw > 0,
    ;
    assert(0 <= row < ch) by (nonlinear_arith)
        requires
            p == cw * row + col,
            0 <= col < cw,
            0 <= p < cw * ch,
            cw > 0,
    ;
    let w = cw * fwc;
    assert(cx * cw + col < w) by (nonlinear_arith)
        requires
            w == cw * fwc,
            0 <= cx < fwc,
            0 <= col < cw,
    ;
    assert(0 <= cx * cw) by (nonlinear_arith)
        requires
            0 <= cx,
            0 <= cw,
    ;
    let r = cy * ch + row;
    assert(0 <= r < ch * fhc && r <= 255 * 255) by (nonlinear_arith)
        requires
            r == cy * ch + row,
            0 <= cy < fhc,
            0 <= row < ch,
            ch <= 255,
            fhc <= 255,
    ;
    assert(0 <= r * w) by (nonlinear_arith)
        requires
            0 <= r,
            0 <= w,
    ;
    assert(r * w + w <= ch * fhc * w) by (nonlinear_arith)
        requires
            r < ch * fhc,
            0 <= w,
    ;
    assert(ch * fhc * w == cw * fwc * ch * fhc) by (nonlinear_arith)
        requires
            w == cw * fwc,
    ;
    assert(cw * fwc * ch * fhc <= 255 * 255 * 255 * 255) by (nonlinear_arith)
        requires
            0 < cw <= 255,
            0 < ch <= 255,
            0 < fwc <= 255,
            0 < fhc <= 255,
    ;
}

proof fn lemma_bit_byte(bit: int, w: int, m: int)
    requires
        0 <= bit < w * m,
        w % 8 == 0,
        w > 0,
        m > 0,
    ensures
        bit / 8 < (w * m) / 8,
        (w * m) % 8 == 0,
{
    let a = w / 8;
    assert(w == 8 * a);
    assert(w * m == 8 * (a * m)) by (nonlinear_arith)
        requires
            w == 8 * a,
    ;
    assert((8 * (a * m)) / 8 == a * m);
    assert((8 * (a * m)) % 8 == 0);
    assert(bit / 8 < a * m);
}

impl<'a> Font<'a> {
    /// Every dimension is non-zero and fits in a byte, as pixel coordinates do.
    pub open spec fn wf(&self) -> bool {
        0 < self.font_width_chars <= 255 && 0 < self.font_height_chars <= 255 && 0
            < self.char_width_px <= 255 && 0 < self.char_height_px <= 255
    }

    /// Width of the atlas in pixels.
    pub open spec fn width_px(&self) -> int {
        self.char_width_px * self.font_width_chars
    }

    /// Number of pixels in the whole atlas.
    pub open spec fn atlas_px(&self) -> int {
        self.char_width_px * self.font_width_chars * self.char_height_px * self.font_height_chars
    }

    /// Pixel number of pixel `p` (row by row) of glyph cell `(cx, cy)`.
    pub open spec fn atlas_index(&self, cx: int, cy: int, p: int) -> int {
        (cy * self.char_height_px + p / (self.char_width_px as int)) * self.width_px() + cx
            * self.char_width_px + p % (self.char_width_px as int)
    }

    /// Bytes of a one-glyph buffer of 16-bit pixels.
    pub open spec fn glyph_bytes(&self) -> int {
        self.char_width_px * self.char_height_px * 2
    }

    /// A glyph cell inside the atlas grid.
    pub open spec fn has_cell(&self, cx: int, cy: int) -> bool {
        0 <= cx < self.font_width_chars && 0 <= cy < self.font_height_chars
    }

    /// Glyph `(cx, cy)` of an alpha atlas, blended from `clr` towards `set`,
    /// as big-endian 5-6-5 pixels row by row.
    pub open spec fn alpha_glyph(&self, cx: int, cy: int, set: Rgb, clr: Rgb) -> Seq<u8> {
        Seq::new(
            self.glyph_bytes() as nat,
            |k: int|
                {
                    let v = blend565(set, clr, self.font@[self.atlas_index(cx, cy, k / 2)]);
                    if k % 2 == 0 {
                        color_hi(v)
                    } else {
                        color_lo(v)
                    }
                },
        )
    }

    /// Glyph `(cx, cy)` of a 1-bit atlas: `set` where the bit is set, `clr`
    /// elsewhere, as big-endian pixels row by row.
    pub open spec fn bit_glyph(&self, cx: int, cy: int, set: u16, clr: u16) -> Seq<u8> {
        Seq::new(
            self.glyph_bytes() as nat,
            |k: int|
                {
                    let bit = self.atlas_index(cx, cy, k / 2);
                    let v = if bit_set(self.font@[bit / 8], (bit % 8) as u8) {
                        set
                    } else {
                        clr
                    };
                    if k % 2 == 0 {
                        color_hi(v)
                    } else {
                        color_lo(v)
                    }
                },
        )
    }

    /// Bytes needed for one glyph as 16-bit pixels.
    pub fn char_buf_size(&self) -> (r: usize)
        requires
            self.wf(),
        ensures
            r == self.glyph_bytes(),
    {
        proof {
            assert(self.char_width_px * self.char_height_px <= 255 * 255) by (nonlinear_arith)
                requires
                    self.wf(),
            ;
        }
        self.char_width_px * self.char_height_px * 2
    }

    /// Number of pixels in the whole atlas.
    pub fn atlas_px_count(&self) -> (r: usize)
        requires
            self.wf(),
        ensures
            r == self.atlas_px(),
    {
        proof {
            assert(self.char_width_px * self.char_height_px <= 255 * 255) by (nonlinear_arith)
                requires
                    self.wf(),
            ;
            assert(self.char_width_px * self.char_height_px * self.font_width_chars <= 255 * 255
                * 255) by (nonlinear_arith)
                requires
                    self.wf(),
            ;
            assert(self.atlas_px() <= 255 * 255 * 255 * 255) by (nonlinear_arith)
                requires
                    self.wf(),
            ;
            assert(self.char_width_px * self.char_height_px * self.font_width_chars
                * self.font_height_chars == self.atlas_px()) by (nonlinear_arith);
        }
        let char_ttl_px = self.char_width_px * self.char_height_px;
        char_ttl_px * self.font_width_chars * self.font_height_chars
    }

    /// Bytes of a 1-bit atlas: one bit per pixel, rounded down to bytes.
    pub fn font_bin_size(&self) -> (r: usize)
        requires
            self.wf(),
        ensures
            r == self.atlas_px() / 8,
    {
        self.atlas_px_count() / 8
    }

    /// Renders glyph `(char_x, char_y)` of an alpha atlas into the first
    /// glyph's worth of `buf`, each pixel `set_val` over `clr_val` at the
    /// glyph's opacity; bytes past the glyph are left alone. A cell outside
    /// the grid writes nothing. Fails, leaving `buf` alone, when `buf` is
    /// shorter than one glyph or the atlas has fewer bytes than pixels.
    pub fn font_alpha_to_be_bytes(
        &self,
        buf: &mut [u8],
        char_x: usize,
        char_y: usize,
        set_val: Rgb,
        clr_val: Rgb,
    ) -> (r: Result<(), ()>)
        requires
            self.wf(),
        ensures
            r.is_ok() <==> (old(buf)@.len() >= self.glyph_bytes() && self.font@.len()
                >= self.atlas_px()),
            final(buf)@.len() == old(buf)@.len(),
            r.is_ok() && self.has_cell(char_x as int, char_y as int)
                ==> final(buf)@.take(self.glyph_bytes())
                == self.alpha_glyph(char_x as int, char_y as int, set_val, clr_val),
            r.is_ok() && self.has_cell(char_x as int, char_y as int)
                ==> final(buf)@.skip(self.glyph_bytes()) == old(buf)@.skip(self.glyph_bytes()),
            !(r.is_ok() && self.has_cell(char_x as int, char_y as int))
                ==> final(buf)@ == old(buf)@,
    {
        let n = self.char_buf_size();
        if buf.len() < n || self.font.len() < self.atlas_px_count() {
            return Err(());
        }
        if char_x >= self.font_width_chars || char_y >= self.font_height_chars {
            return Ok(());
        }
        let ghost orig = buf@;
        let cw = self.char_width_px;
        proof {
            assert(cw * self.font_width_chars <= 255 * 255) by (nonlinear_arith)
                requires
                    self.wf(),
                    cw == self.char_width_px,
            ;
        }
        let font_width_px = cw * self.font_width_chars;
        let npx = n / 2;
        let mut p: usize = 0;
        while p < npx
            invariant
                self.wf(),
                npx * 2 == n,
                n == self.glyph_bytes(),
                buf@.len() == orig.len(),
                orig.len() >= n,
                forall|k: int| n <= k < orig.len() ==> #[trigger] buf@[k] == orig[k],
                cw == self.char_width_px,
                font_width_px == self.width_px(),
                self.font@.len() >= self.atlas_px(),
                self.has_cell(char_x as int, char_y as int),
                p <= npx,
                forall|k: int|
                    0 <= k < 2 * p ==> #[trigger] buf@[k] == self.alpha_glyph(
                        char_x as int,
                        char_y as int,
                        set_val,
                        clr_val,
                    )[k],
            decreases npx - p,
        {
            proof {
                lemma_glyph_index(
                    cw as int,
                    self.char_height_px as int,
                    self.font_width_chars as int,
                    self.font_height_chars as int,
                    char_x as int,
                    char_y as int,
                    p as int,
                );
            }
            let row = char_y * self.char_height_px + p / cw;
            let idx = row * font_width_px + char_x * cw + p % cw;
            let v = blend_pixel(set_val, clr_val, self.font[idx]);
            buf[2 * p] = (v / 256) as u8;
            buf[2 * p + 1] = (v % 256) as u8;
            proof {
                let g = self.alpha_glyph(char_x as int, char_y as int, set_val, clr_val);
                assert(idx == self.atlas_index(char_x as int, char_y as int, p as int));
                assert((2 * p) as int / 2 == p);
                assert((2 * p + 1) as int / 2 == p);
                assert(buf@[2 * p as int] == g[2 * p as int]);
                assert(buf@[2 * p + 1] == g[2 * p + 1]);
            }
            p = p + 1;
        }
        proof {
            assert(final(buf)@.take(n as int) =~= self.alpha_glyph(
                char_x as int,
                char_y as int,
                set_val,
                clr_val,
            ));
            assert(final(buf)@.skip(n as int) =~= orig.skip(n as int));
        }
        Ok(())
    }

    /// Renders glyph `(char_x, char_y)` of a 1-bit atlas into `buf`: `set_val`
    /// where the glyph's bit is set, `clr_val` elsewhere. Fails, leaving `buf`
    /// alone, when `buf` is not one glyph long or the atlas is not one bit per
    /// pixel. A cell outside the grid, or an atlas whose rows are not whole
    /// bytes, writes nothing.
    pub fn font_bit_to_be_bytes(
        &self,
        buf: &mut [u8],
        char_x: usize,
        char_y: usize,
        set_val: u16,
        clr_val: u16,
    ) -> (r: Result<(), ()>)
        requires
            self.wf(),
        ensures
            r.is_ok() <==> (old(buf)@.len() == self.glyph_bytes() && self.font@.len()
                == self.atlas_px() / 8),
            r.is_ok() && self.width_px() % 8 == 0 && self.has_cell(char_x as int, char_y as int)
                ==> final(buf)@ == self.bit_glyph(char_x as int, char_y as int, set_val, clr_val),
            !(r.is_ok() && self.width_px() % 8 == 0 && self.has_cell(char_x as int, char_y as int))
                ==> final(buf)@ == old(buf)@,
    {
        if buf.len() != self.char_buf_size() {
            return Err(());
        }
        if self.font.len() != self.font_bin_size() {
            return Err(());
        }
        let cw = self.char_width_px;
        proof {
            assert(cw * self.font_width_chars <= 255 * 255) by (nonlinear_arith)
                requires
                    self.wf(),
                    cw == self.char_width_px,
            ;
        }
        let font_width_px = cw * self.font_width_chars;
        if font_width_px % 8 != 0 || char_x >= self.font_width_chars || char_y
            >= self.font_height_chars {
            return Ok(());
        }
        let n = buf.len();
        let npx = n / 2;
        let mut p: usize = 0;
        while p < npx
            invariant
                self.wf(),
                npx * 2 == n,
                n == self.glyph_bytes(),
                buf@.len() == n,
                cw == self.char_width_px,
                font_width_px == self.width_px(),
                font_width_px % 8 == 0,
                self.font@.len() == self.atlas_px() / 8,
                self.has_cell(char_x as int, char_y as int),
                p <= npx,
                forall|k: int|
                    0 <= k < 2 * p ==> #[trigger] buf@[k] == self.bit_glyph(
                        char_x as int,
                        char_y as int,
                        set_val,
                        clr_val,
                    )[k],
            decreases npx - p,
        {
            proof {
                lemma_glyph_index(
                    cw as int,
                    self.char_height_px as int,
                    self.font_width_chars as int,
                    self.font_height_chars as int,
                    char_x as int,
                    char_y as int,
                    p as int,
                );
                let bit = self.atlas_index(char_x as int, char_y as int, p as int);
                assert(self.atlas_px() == self.width_px() * (self.char_height_px
                    * self.font_height_chars)) by (nonlinear_arith);
                assert(self.char_height_px * self.font_height_chars > 0) by (nonlinear_arith)
                    requires
                        self.wf(),
                ;
                lemma_bit_byte(
                    bit,
                    self.width_px(),
                    self.char_height_px * self.font_height_chars,
                );
            }
            let row = char_y * self.char_height_px + p / cw;
            let bit = row * font_width_px + char_x * cw + p % cw;
            let byte = self.font[bit / 8];
            let shift = (bit % 8) as u8;
            let v = if byte & (0x80u8 >> shift) != 0 {
                set_val
            } else {
                clr_val
            };
            buf[2 * p] = (v / 256) as u8;
            buf[2 * p + 1] = (v % 256) as u8;
            proof {
                let g = self.bit_glyph(char_x as int, char_y as int, set_val, clr_val);
                assert(bit == self.atlas_index(char_x as int, char_y as int, p as int));
                assert((2 * p) as int / 2 == p);
                assert((2 * p + 1) as int / 2 == p);
                assert(buf@[2 * p as int] == g[2 * p as int]);
                assert(buf@[2 * p + 1] == g[2 * p + 1]);
            }
            p = p + 1;
        }
        proof {
            assert(final(buf)@ =~= self.bit_glyph(char_x as int, char_y as int, set_val, clr_val));
        }
        Ok(())
    }
}

} // verus!
