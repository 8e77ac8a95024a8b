//! Colors: 8-bit RGB triples, the panel's 16-bit 5-6-5 format, alpha
//! blending between the two, and the packed word the console hands around.
use vstd::prelude::*;
use vstd::arithmetic::div_mod::lemma_fundamental_div_mod_converse;

verus! {

/// An RGB color with 8 bits per channel.
#[derive(Clone, Copy, Debug, PartialEq, Eq, Structural)]
pub struct Rgb {
    pub r: u8,
    pub g: u8,
    pub b: u8,
}

impl Rgb {
    /// Full white.
    pub fn white() -> (r: Rgb)
        ensures
            r.r == 255 && r.g == 255 && r.b == 255,
    {
        Rgb { r: 255, g: 255, b: 255 }
    }

    /// Full black.
    pub fn black() -> (r: Rgb)
        ensures
            r.r == 0 && r.g == 0 && r.b == 0,
    {
        Rgb { r: 0, g: 0, b: 0 }
    }
}

/// The 5-6-5 form of an RGB color: the top 5 bits of red, 6 of green and 5
/// of blue, red highest.
pub open spec fn pack565(c: Rgb) -> u16 {
    ((c.r / 8) * 2048 + (c.g / 4) * 32 + c.b / 8) as u16
}

/// The RGB color whose top bits are the fields of a 5-6-5 color, the low
/// bits zero.
pub open spec fn unpack565(c: u16) -> Rgb {
    Rgb { r: ((c / 2048) * 8) as u8, g: (((c / 32) % 64) * 4) as u8, b: ((c % 32) * 8) as u8 }
}

/// One channel of `fg` over `bg` at opacity `alpha` out of 255, unscaled:
/// `fg * alpha + bg * (255 - alpha)`, at most 255 * 255.
pub open spec fn blend_sum(fg: u8, bg: u8, alpha: u8) -> int {
    fg * alpha + bg * (255 - alpha)
}

/// One channel of `fg` over `bg` at opacity `alpha`, scaled back to 8 bits
/// by dividing the sum by 255, rounded to nearest.
pub open spec fn blend_channel(fg: u8, bg: u8, alpha: u8) -> u8 {
    ((blend_sum(fg, bg, alpha) + 127) / 255) as u8
}

/// `fg` over `bg` at opacity `alpha`, channel by channel.
pub open spec fn blend_rgb(fg: Rgb, bg: Rgb, alpha: u8) -> Rgb {
    Rgb {
        r: blend_channel(fg.r, bg.r, alpha),
        g: blend_channel(fg.g, bg.g, alpha),
        b: blend_channel(fg.b, bg.b, alpha),
    }
}

/// `fg` over `bg` at opacity `alpha`, in 5-6-5 form.
pub open spec fn blend565(fg: Rgb, bg: Rgb, alpha: u8) -> u16 {
    pack565(blend_rgb(fg, bg, alpha))
}

proof fn lemma_scaled_back(v: u8)
    ensures
        (v * 255 + 127) / 255 == v,
{
    lemma_fundamental_div_mod_converse(v * 255 + 127, 255, v as int, 127);
}

/// At alpha 0 the blend gives the background, and at alpha 255 the
/// foreground, each exactly in 5-6-5 form, for every pair of colors.
pub proof fn lemma_blend_ends(fg: Rgb, bg: Rgb)
    ensures
        blend565(fg, bg, 0) == pack565(bg),
        blend565(fg, bg, 255) == pack565(fg),
{
    lemma_scaled_back(bg.r);
    lemma_scaled_back(bg.g);
    lemma_scaled_back(bg.b);
    lemma_scaled_back(fg.r);
    lemma_scaled_back(fg.g);
    lemma_scaled_back(fg.b);
    assert(blend_sum(fg.r, bg.r, 0) == bg.r * 255);
    assert(blend_sum(fg.g, bg.g, 0) == bg.g * 255);
    assert(blend_sum(fg.b, bg.b, 0) == bg.b * 255);
    assert(blend_sum(fg.r, bg.r, 255) == fg.r * 255);
    assert(blend_sum(fg.g, bg.g, 255) == fg.g * 255);
    assert(blend_sum(fg.b, bg.b, 255) == fg.b * 255);
    assert(blend_rgb(fg, bg, 0) == bg);
    assert(blend_rgb(fg, bg, 255) == fg);
}

proof fn lemma_blend_sum_bound(fg: u8, bg: u8, alpha: u8)
    ensures
        0 <= fg * alpha <= fg * alpha + bg * (255 - alpha) <= 255 * 255,
        0 <= bg * (255 - alpha),
{
    assert(0 <= fg * alpha) by (nonlinear_arith);
    assert(0 <= bg * (255 - alpha)) by (nonlinear_arith)
        requires
            alpha <= 255,
    ;
    assert(fg * alpha + bg * (255 - alpha) <= 255 * alpha + 255 * (255 - alpha))
        by (nonlinear_arith)
        requires
            fg <= 255,
            bg <= 255,
            alpha <= 255,
    ;
}

/// Blends `fg` over `bg` at opacity `alpha` (0 gives the background, 255 the
/// foreground), each channel scaled back to 8 bits, and packs the result into
/// 5-6-5 form.
pub fn blend_pixel(fg: Rgb, bg: Rgb, alpha: u8) -> (r: u16)
    ensures
        r == blend565(fg, bg, alpha),
{
    proof {
        lemma_blend_sum_bound(fg.r, bg.r, alpha);
        lemma_blend_sum_bound(fg.g, bg.g, alpha);
        lemma_blend_sum_bound(fg.b, bg.b, alpha);
    }
    let plus = alpha as u16;
    let minus = 255 - plus;
    let red = (fg.r as u16 * plus + bg.r as u16 * minus + 127) / 255;
    let green = (fg.g as u16 * plus + bg.g as u16 * minus + 127) / 255;
    let blue = (fg.b as u16 * plus + bg.b as u16 * minus + 127) / 255;
    to_565(Rgb { r: red as u8, g: green as u8, b: blue as u8 })
}

/// Packs an RGB color into 5-6-5 form.
pub fn to_565(c: Rgb) -> (r: u16)
    ensures
        r == pack565(c),
{
    (c.r as u16 / 8) * 2048 + (c.g as u16 / 4) * 32 + c.b as u16 / 8
}

/// Widens a 5-6-5 color to RGB, each field in the top bits of its channel.
pub fn from_565(c: u16) -> (r: Rgb)
    ensures
        r == unpack565(c),
{
    Rgb { r: ((c / 2048) * 8) as u8, g: (((c / 32) % 64) * 4) as u8, b: ((c % 32) * 8) as u8 }
}

/// The color word the console keeps on its data stack: blue in the lowest
/// byte, then green, then red, the top byte zero.
pub open spec fn rgb_word(c: Rgb) -> i32 {
    (c.b + 256 * c.g + 65536 * c.r) as i32
}

/// Packs a color into its data-stack word.
pub fn rgb_to_i32(c: Rgb) -> (r: i32)
    ensures
        r == rgb_word(c),
        0 <= r < 0x0100_0000,
{
    c.b as i32 + 256 * c.g as i32 + 65536 * c.r as i32
}

/// The color held in a data-stack word: blue from the lowest byte, then
/// green, then red; the top byte is ignored.
pub open spec fn word_rgb(v: i32) -> Rgb {
    let u = v as u32;
    Rgb { r: ((u / 65536) % 256) as u8, g: ((u / 256) % 256) as u8, b: (u % 256) as u8 }
}

/// Unpacks the color held in a data-stack word.
pub fn i32_to_rgb(val: i32) -> (r: Rgb)
    ensures
        r == word_rgb(val),
{
    let u = val as u32;
    Rgb { r: ((u / 65536) % 256) as u8, g: ((u / 256) % 256) as u8, b: (u % 256) as u8 }
}

/// Packing a color into its data-stack word and unpacking it gives the
/// color back.
pub proof fn lemma_rgb_word_round_trip(c: Rgb)
    ensures
        word_rgb(rgb_word(c)) == c,
{
    let v = c.b + 256 * c.g + 65536 * c.r;
    assert(0 <= v < 0x0100_0000);
    assert((v as i32) as u32 == v);
    assert(v / 65536 == c.r as int);
    assert((v / 256) % 256 == c.g as int);
    assert(v % 256 == c.b as int);
}

/// The `rgb` command: red, green and blue were pushed in that order, each
/// cut to its low 8 bits; the result is their packed color word.
pub fn vals_to_rgb(red: i32, green: i32, blue: i32) -> (r: i32)
    ensures
        r == rgb_word(Rgb { r: red as u8, g: green as u8, b: blue as u8 }),
{
    rgb_to_i32(Rgb { r: red as u8, g: green as u8, b: blue as u8 })
}

} // verus!
