//! The seven fixed text rows of the round display: blanking a row, and
//! drawing centred text into it with the alpha font.
use vstd::prelude::*;
use vstd::utf8::encode_utf8;

use crate::bus::{draw, draw_writes, writes, BusOp, BusWrite};
use crate::color::{from_565, unpack565, Rgb};
use crate::font::Font;
use crate::lcd::{line_capacity, line_x_range, line_y_range, LcdBuf};
use crate::raster::{push_rect, rect_writes};

verus! {

/// Background color of a text row in 5-6-5 form: dark blue, darkest in the
/// middle row.
pub open spec fn row_color(idx: int) -> u16 {
    if idx == 0 || idx == 6 {
        16
    } else if idx == 1 || idx == 5 {
        12
    } else if idx == 2 || idx == 4 {
        8
    } else {
        6
    }
}

/// Background color of row `idx`, or `None` when there is no such row.
pub fn linecolor(idx: u8) -> (r: Option<u16>)
    ensures
        idx < 7 <==> r.is_some(),
        r.is_some() ==> r.unwrap() == row_color(idx as int),
{
    match idx {
        0 => Some(0b00000_000000_10000),
        1 => Some(0b00000_000000_01100),
        2 => Some(0b00000_000000_01000),
        3 => Some(0b00000_000000_00110),
        4 => Some(0b00000_000000_01000),
        5 => Some(0b00000_000000_01100),
        6 => Some(0b00000_000000_10000),
        _ => None,
    }
}

/// The writes that paint row `idx` in its background color.
pub open spec fn blank_writes(idx: int) -> Seq<BusWrite> {
    rect_writes(
        line_x_range(idx).0,
        line_x_range(idx).1,
        line_y_range(idx).0,
        line_y_range(idx).1,
        row_color(idx),
    )
}

/// Paints text row `idx` in its background color; no writes for a row
/// number past the last row.
pub fn blank_line(idx: u8) -> (r: Vec<BusOp>)
    ensures
        idx < 7 ==> writes(r@) == blank_writes(idx as int),
        idx >= 7 ==> r@.len() == 0,
{
    let mut ops: Vec<BusOp> = Vec::new();
    let layout = LcdBuf::new();
    match (linecolor(idx), layout.get_x_range(idx), layout.get_y_range(idx)) {
        (Some(color), Some((xs, xe)), Some((ys, ye))) => {
            push_rect(&mut ops, xs, xe, ys, ye, color);
            proof {
                assert(writes(Seq::<BusOp>::empty()) =~= Seq::<BusWrite>::empty());
                assert(Seq::<BusWrite>::empty() + blank_writes(idx as int) =~= blank_writes(
                    idx as int,
                ));
            }
        },
        _ => {},
    }
    ops
}

/// The shape of the alpha font that text rows are drawn with: 14 by 31
/// pixel cells, 32 cells per atlas row starting at the space character.
pub open spec fn is_row_font(font: &Font) -> bool {
    font.wf() && font.char_width_px == 14 && font.char_height_px == 31 && font.font_width_chars
        == 32
}

/// `s` with leading and trailing white space removed, as `str::trim` does.
pub uninterp spec fn trimmed(s: Seq<char>) -> Seq<char>;

/// Relies on `str::trim`: the text without leading and trailing Unicode
/// white space.
#[verifier::external_body]
fn trim_text(s: &str) -> (r: &str)
    ensures
        r@ == trimmed(s@),
{
    s.trim()
}

/// The text drawn in row `idx`, given the trimmed text: cut to the row's
/// capacity.
pub open spec fn row_text(idx: int, text: Seq<u8>) -> Seq<u8> {
    if text.len() <= line_capacity(idx) {
        text
    } else {
        text.take(line_capacity(idx))
    }
}

/// Left edge of `n` glyphs centred in row `idx`.
pub open spec fn row_text_x(idx: int, n: int) -> int {
    line_x_range(idx).0 + (line_x_range(idx).1 - line_x_range(idx).0 - 14 * n) / 2
}

/// The atlas cell of character `c`, counted from the space character.
pub open spec fn glyph_cell(c: u8) -> (int, int) {
    (((c - 32) % 32) as int, ((c - 32) / 32) as int)
}

/// The writes that draw character `c` at column `x` and row `y`: white over
/// `bg`. Nothing is drawn for a character that the atlas lacks.
pub open spec fn glyph_writes(font: &Font, c: u8, x: int, y: int, bg: Rgb) -> Seq<BusWrite> {
    if c >= 32 && font.has_cell(glyph_cell(c).0, glyph_cell(c).1) && font.font@.len()
        >= font.atlas_px() {
        draw_writes(
            x as u8,
            (x + 14) as u8,
            y as u8,
            (y + 31) as u8,
            font.alpha_glyph(
                glyph_cell(c).0,
                glyph_cell(c).1,
                Rgb { r: 255, g: 255, b: 255 },
                bg,
            ),
        )
    } else {
        Seq::empty()
    }
}

/// The writes that draw `chars` side by side from column `x`.
pub open spec fn text_writes(font: &Font, chars: Seq<u8>, x: int, y: int, bg: Rgb) -> Seq<
    BusWrite,
>
    decreases chars.len(),
{
    if chars.len() == 0 {
        Seq::empty()
    } else {
        glyph_writes(font, chars[0], x, y, bg) + text_writes(
            font,
            chars.drop_first(),
            x + 14,
            y,
            bg,
        )
    }
}

/// What drawing the trimmed `text` into row `idx` writes: the blanked row,
/// then the text cut to the row's capacity and centred in it, white over the
/// row color.
pub open spec fn print_writes(font: &Font, idx: int, text: Seq<u8>) -> Seq<BusWrite> {
    let t = row_text(idx, text);
    blank_writes(idx) + text_writes(
        font,
        t,
        row_text_x(idx, t.len() as int),
        line_y_range(idx).0 as int,
        unpack565(row_color(idx)),
    )
}

/// The outcome of drawing a text row.
pub struct LineRender {
    /// What to send to the display.
    pub ops: Vec<BusOp>,
    /// Whether the text was used up: the interpreter's output buffer is then
    /// to be cleared.
    pub consumed: bool,
}

/// Appends the writes that draw `chars[start..start + len]` side by side
/// from column `x`, row `y`, white over `bg`, one 14-pixel cell each.
pub fn push_text(
    ops: &mut Vec<BusOp>,
    font: &Font,
    chars: &[u8],
    start: usize,
    len: usize,
    x: u8,
    y: u8,
    bg: Rgb,
)
    requires
        is_row_font(font),
        start + len <= chars@.len(),
        x + 14 * len <= 255,
        y + 31 <= 255,
    ensures
        writes(final(ops)@) == writes(old(ops)@) + text_writes(
            font,
            chars@.subrange(start as int, start + len),
            x as int,
            y as int,
            bg,
        ),
{
    let ghost shown = chars@.subrange(start as int, start + len);
    let ghost before_all = writes(ops@);
    let glyph_len = font.char_buf_size();
    let white = Rgb::white();
    let chars_len = chars.len();
    let mut x_pos: u8 = x;
    let mut k: usize = 0;
    proof {
        assert(shown.skip(0) =~= shown);
    }
    while k < len
        invariant
            is_row_font(font),
            glyph_len == 14 * 31 * 2,
            k <= len,
            start + len <= chars_len,
            chars_len == chars@.len(),
            shown == chars@.subrange(start as int, start + len),
            x_pos as int == x + 14 * k,
            x + 14 * len <= 255,
            y + 31 <= 255,
            white == (Rgb { r: 255, g: 255, b: 255 }),
            writes(ops@) + text_writes(font, shown.skip(k as int), x_pos as int, y as int, bg)
                == before_all + text_writes(font, shown, x as int, y as int, bg),
        decreases len - k,
    {
        let ch = chars[start + k];
        let ghost before = ops@;
        let ghost rest = shown.skip(k as int);
        proof {
            assert(rest[0] == ch);
            assert(rest.drop_first() =~= shown.skip(k + 1));
        }
        if ch >= 32 && (((ch - 32) / 32) as usize) < font.font_height_chars {
            let code = ch - 32;
            let mut buf = vec![0u8; glyph_len];
            let res = font.font_alpha_to_be_bytes(
                buf.as_mut_slice(),
                (code % 32) as usize,
                (code / 32) as usize,
                white,
                bg,
            );
            if res.is_ok() {
                proof {
                    assert(buf@ =~= buf@.take(glyph_len as int));
                }
                draw(ops, x_pos, x_pos + 14, y, y + 31, buf);
            }
        }
        proof {
            let g = glyph_writes(font, ch, x_pos as int, y as int, bg);
            if !(ch >= 32 && ((ch - 32) / 32) < font.font_height_chars) {
                assert(g =~= Seq::<BusWrite>::empty());
                assert(writes(ops@) =~= writes(before) + g);
            }
            assert(writes(ops@) == writes(before) + g);
            assert(text_writes(font, rest, x_pos as int, y as int, bg) == g + text_writes(
                font,
                shown.skip(k + 1),
                x_pos + 14,
                y as int,
                bg,
            ));
            assert(writes(before) + (g + text_writes(
                font,
                shown.skip(k + 1),
                x_pos + 14,
                y as int,
                bg,
            )) =~= writes(ops@) + text_writes(font, shown.skip(k + 1), x_pos + 14, y as int, bg));
        }
        x_pos = x_pos + 14;
        k = k + 1;
    }
    proof {
        assert(shown.skip(len as int) =~= Seq::<u8>::empty());
        assert(writes(ops@) + Seq::<BusWrite>::empty() =~= writes(ops@));
    }
}

/// Draws `text` (the interpreter's output, already trimmed) into text row
/// `idx`: the row is blanked in its color, then the text, cut to the row's
/// capacity, is drawn centred in white with `font`. Nothing happens for a
/// row number past the last row. The text counts as used up only when it is
/// not empty.
pub fn print_trimmed(font: &Font, idx: u8, text: &[u8]) -> (r: LineRender)
    requires
        is_row_font(font),
    ensures
        idx >= 7 ==> r.ops@.len() == 0 && !r.consumed,
        idx < 7 ==> writes(r.ops@) == print_writes(font, idx as int, text@),
        r.consumed <==> (idx < 7 && text@.len() > 0),
{
    let mut ops: Vec<BusOp> = Vec::new();
    let layout = LcdBuf::new();
    let (color, xs, xe, ys, cap) = match (
        linecolor(idx),
        layout.get_x_range(idx),
        layout.get_y_range(idx),
        layout.get_line(idx),
    ) {
        (Some(color), Some((xs, xe)), Some((ys, ye)), Some(cells)) => {
            push_rect(&mut ops, xs, xe, ys, ye, color);
            (color, xs, xe, ys, cells.len())
        },
        _ => {
            return LineRender { ops, consumed: false };
        },
    };
    proof {
        assert(writes(Seq::<BusOp>::empty()) =~= Seq::<BusWrite>::empty());
        assert(Seq::<BusWrite>::empty() + blank_writes(idx as int) =~= blank_writes(idx as int));
    }
    let start: usize = 0;
    let end = text.len();
    proof {
        assert(text@.subrange(0, end as int) =~= text@);
    }
    if start == end {
        proof {
            assert(text_writes(font, Seq::<u8>::empty(), 0, 0, unpack565(color)) =~= Seq::<
                BusWrite,
            >::empty());
            assert(row_text(idx as int, text@) =~= Seq::<u8>::empty());
            assert(writes(ops@) + Seq::<BusWrite>::empty() =~= writes(ops@));
        }
        return LineRender { ops, consumed: false };
    }
    let len = if end - start < cap {
        end - start
    } else {
        cap
    };
    let ghost shown = text@.subrange(start as int, start + len);
    proof {
        assert(shown =~= row_text(idx as int, text@));
    }
    let bg = from_565(color);
    let half_delta_w = ((xe - xs) as usize - len * 14) / 2;
    let x_pos: u8 = xs + half_delta_w as u8;
    proof {
        assert(text@.subrange(start as int, start + len) == shown);
    }
    push_text(&mut ops, font, text, start, len, x_pos, ys, bg);
    LineRender { ops, consumed: true }
}

/// Draws `text` (the interpreter's output) into text row `idx`: the row is
/// blanked in its color, then the text, trimmed of white space and cut to the
/// row's capacity, is drawn centred in white with `font`. Nothing happens for
/// a row number past the last row. The text counts as used up only when
/// something was left of it after trimming.
pub fn print_line(font: &Font, idx: u8, text: &str) -> (r: LineRender)
    requires
        is_row_font(font),
    ensures
        idx >= 7 ==> r.ops@.len() == 0 && !r.consumed,
        idx < 7 ==> writes(r.ops@) == print_writes(font, idx as int, encode_utf8(trimmed(text@))),
        r.consumed <==> (idx < 7 && encode_utf8(trimmed(text@)).len() > 0),
{
    print_trimmed(font, idx, trim_text(text).as_bytes())
}

} // verus!
