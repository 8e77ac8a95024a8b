//! The `font` and `font2` commands: a fixed sample word drawn with the
//! 1-bit font and with the alpha font.
use vstd::prelude::*;

use crate::bus::{draw, draw_writes, writes, BusOp, BusWrite};
use crate::color::Rgb;
use crate::errors::ErrorKind;
use crate::font::Font;
use crate::text_row::{glyph_cell, is_row_font, push_text, text_writes};

verus! {

/// The sample word, `butts`, in ASCII.
pub open spec fn sample_word() -> Seq<u8> {
    seq![0x62u8, 0x75u8, 0x74u8, 0x74u8, 0x73u8]
}

/// The sample word.
fn sample() -> (r: [u8; 5])
    ensures
        r@ == sample_word(),
{
    let r = [0x62u8, 0x75u8, 0x74u8, 0x74u8, 0x73u8];
    proof {
        assert(r@ =~= sample_word());
    }
    r
}

/// The shape of the 1-bit font: 16 by 29 pixel cells, 32 cells per atlas
/// row starting at the space character.
pub open spec fn is_bit_font(font: &Font) -> bool {
    font.wf() && font.char_width_px == 16 && font.char_height_px == 29 && font.font_width_chars
        == 32
}

/// The writes that draw character `c` of a 1-bit font at column `x`, row
/// `y`, white on black. Nothing is drawn for a character that the atlas lacks.
pub open spec fn bit_glyph_writes(font: &Font, c: u8, x: int, y: int) -> Seq<BusWrite> {
    if c >= 32 && font.has_cell(glyph_cell(c).0, glyph_cell(c).1) && font.font@.len()
        == font.atlas_px() / 8 && font.width_px() % 8 == 0 {
        draw_writes(
            x as u8,
            (x + 16) as u8,
            y as u8,
            (y + 29) as u8,
            font.bit_glyph(glyph_cell(c).0, glyph_cell(c).1, 0xFFFF, 0x0000),
        )
    } else {
        Seq::empty()
    }
}

/// The writes that draw `chars` side by side with a 1-bit font from column `x`.
pub open spec fn bit_text_writes(font: &Font, chars: Seq<u8>, x: int, y: int) -> Seq<BusWrite>
    decreases chars.len(),
{
    if chars.len() == 0 {
        Seq::empty()
    } else {
        bit_glyph_writes(font, chars[0], x, y) + bit_text_writes(
            font,
            chars.drop_first(),
            x + 16,
            y,
        )
    }
}

/// The `font` command (`x y font`): the sample word in the 1-bit font,
/// white on black, from column `x`, row `y`. Fails with `BadLiteral`, drawing
/// nothing, when the word would run past the panel's 8-bit coordinates.
pub fn font(atlas: &Font, x: u8, y: u8) -> (r: Result<Vec<BusOp>, ErrorKind>)
    requires
        is_bit_font(atlas),
    ensures
        r.is_ok() <==> (x + 16 * 5 <= 255 && y + 29 <= 255),
        r.is_err() ==> r == Err::<Vec<BusOp>, ErrorKind>(ErrorKind::BadLiteral),
        r.is_ok() ==> writes(r.unwrap()@) == bit_text_writes(
            atlas,
            sample_word(),
            x as int,
            y as int,
        ),
{
    if x > 255 - 16 * 5 || y > 255 - 29 {
        return Err(ErrorKind::BadLiteral);
    }
    let word = sample();
    let mut ops: Vec<BusOp> = Vec::new();
    let glyph_len = atlas.char_buf_size();
    let mut x_pos: u8 = x;
    let mut k: usize = 0;
    let ghost shown = sample_word();
    proof {
        assert(shown.skip(0) =~= shown);
        assert(writes(ops@) =~= Seq::<BusWrite>::empty());
    }
    while k < 5
        invariant
            is_bit_font(atlas),
            glyph_len == 16 * 29 * 2,
            k <= 5,
            word@ == shown,
            shown == sample_word(),
            x_pos as int == x + 16 * k,
            x + 16 * 5 <= 255,
            y + 29 <= 255,
            writes(ops@) + bit_text_writes(atlas, shown.skip(k as int), x_pos as int, y as int)
                == bit_text_writes(atlas, shown, x as int, y as int),
        decreases 5 - k,
    {
        let ch = word[k];
        let ghost before = ops@;
        let ghost rest = shown.skip(k as int);
        proof {
            assert(rest[0] == ch);
            assert(rest.drop_first() =~= shown.skip(k + 1));
        }
        let code = ch - 32;
        let mut drawn = false;
        if ((code / 32) as usize) < atlas.font_height_chars {
            let mut buf = vec![0u8; glyph_len];
            let res = atlas.font_bit_to_be_bytes(
                buf.as_mut_slice(),
                (code % 32) as usize,
                (code / 32) as usize,
                0xFFFF,
                0x0000,
            );
            if res.is_ok() {
                draw(&mut ops, x_pos, x_pos + 16, y, y + 29, buf);
                drawn = true;
            }
        }
        proof {
            let g = bit_glyph_writes(atlas, ch, x_pos as int, y as int);
            if !drawn {
                assert(g =~= Seq::<BusWrite>::empty());
                assert(writes(ops@) =~= writes(before) + g);
            }
            assert(writes(ops@) == writes(before) + g);
            assert(bit_text_writes(atlas, rest, x_pos as int, y as int) == g + bit_text_writes(
                atlas,
                shown.skip(k + 1),
                x_pos + 16,
                y as int,
            ));
            assert(writes(before) + (g + bit_text_writes(
                atlas,
                shown.skip(k + 1),
                x_pos + 16,
                y as int,
            )) =~= writes(ops@) + bit_text_writes(atlas, shown.skip(k + 1), x_pos + 16, y as int));
        }
        x_pos = x_pos + 16;
        k = k + 1;
    }
    proof {
        assert(shown.skip(5) =~= Seq::<u8>::empty());
        assert(writes(ops@) + Seq::<BusWrite>::empty() =~= writes(ops@));
    }
    Ok(ops)
}

/// The `font2` command (`x y font2`): the sample word in the alpha atlas,
/// white over black, from column `x`, row `y`. Fails with `BadLiteral`,
/// drawing nothing, when the word would run past the panel's 8-bit
/// coordinates.
pub fn font2(atlas: &Font, x: u8, y: u8) -> (r: Result<Vec<BusOp>, ErrorKind>)
    requires
        is_row_font(atlas),
    ensures
        r.is_ok() <==> (x + 14 * 5 <= 255 && y + 31 <= 255),
        r.is_err() ==> r == Err::<Vec<BusOp>, ErrorKind>(ErrorKind::BadLiteral),
        r.is_ok() ==> writes(r.unwrap()@) == text_writes(
            atlas,
            sample_word(),
            x as int,
            y as int,
            Rgb { r: 0, g: 0, b: 0 },
        ),
{
    if x > 255 - 14 * 5 || y > 255 - 31 {
        return Err(ErrorKind::BadLiteral);
    }
    let word = sample();
    let mut ops: Vec<BusOp> = Vec::new();
    let black = Rgb::black();
    push_text(&mut ops, atlas, word.as_slice(), 0, 5, x, y, black);
    proof {
        assert(word@.subrange(0, 5) =~= sample_word());
        assert(black == (Rgb { r: 0, g: 0, b: 0 }));
        assert(writes(Seq::<BusOp>::empty()) =~= Seq::<BusWrite>::empty());
        assert(Seq::<BusWrite>::empty() + text_writes(
            atlas,
            sample_word(),
            x as int,
            y as int,
            black,
        ) =~= text_writes(atlas, sample_word(), x as int, y as int, black));
    }
    Ok(ops)
}

} // verus!
