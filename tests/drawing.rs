use forth_console::bus::BusOp;
use forth_console::color::{blend_pixel, from_565, to_565, Rgb};
use forth_console::commands::rect;
use forth_console::demo::{font, font2};
use forth_console::errors::ErrorKind;
use forth_console::font::Font;
use forth_console::lcd::LcdBuf;
use forth_console::raster::{fill_rect, fill_transfer_buffer, next_transfer};
use forth_console::text_row::{blank_line, linecolor, print_line, print_trimmed};

fn window(xs: u8, xe: u8, ys: u8, ye: u8) -> Vec<BusOp> {
    vec![
        BusOp::Command(0x2A),
        BusOp::Data(vec![0, xs, 0, xe - 1]),
        BusOp::Command(0x2B),
        BusOp::Data(vec![0, ys, 0, ye - 1]),
        BusOp::Command(0x2C),
    ]
}

fn with_fill(mut ops: Vec<BusOp>, color: u16, len: usize) -> Vec<BusOp> {
    ops.push(BusOp::Fill { color, len });
    ops
}

#[test]
fn degenerate_rectangles_write_nothing() {
    assert!(fill_rect(10, 10, 0, 50, 0xFFFF).is_empty());
    assert!(fill_rect(20, 10, 0, 50, 0xFFFF).is_empty());
    assert!(fill_rect(0, 50, 30, 30, 0xFFFF).is_empty());
    assert!(fill_rect(0, 50, 31, 30, 0xFFFF).is_empty());
    assert!(fill_rect(255, 0, 255, 0, 0).is_empty());
}

#[test]
fn small_rectangle_window_and_color_run() {
    let ops = fill_rect(10, 12, 20, 23, 0xF800);
    assert_eq!(ops, with_fill(window(10, 12, 20, 23), 0xF800, 12));
}

#[test]
fn full_screen_fill_is_one_fill_of_all_bytes() {
    let ops = fill_rect(0, 240, 0, 240, 0x1234);
    assert_eq!(ops, with_fill(window(0, 240, 0, 240), 0x1234, 240 * 240 * 2));
}

#[test]
fn fill_is_streamed_from_one_fixed_buffer() {
    let mut buf = [0u8; 4096];
    fill_transfer_buffer(&mut buf, 0x1234);
    assert!(buf.chunks(2).all(|p| p == [0x12, 0x34]));
    let mut remaining = 240 * 240 * 2;
    let mut sizes = Vec::new();
    while remaining != 0 {
        let take = next_transfer(remaining);
        sizes.push(take);
        remaining -= take;
    }
    assert_eq!(sizes.len(), 29);
    assert!(sizes[..28].iter().all(|l| *l == 4096));
    assert_eq!(sizes[28], 512);
    assert_eq!(next_transfer(0), 0);
    assert_eq!(next_transfer(4096), 4096);
}

#[test]
fn rect_command_as_pushed_draws_a_real_rectangle() {
    // "0 100 0 50 0 rect": xs 0, xe 100, ys 0, ye 50, black.
    let ops = rect(0, 100, 0, 50, 0);
    assert_eq!(ops, with_fill(window(0, 100, 0, 50), 0, 10000));
}

#[test]
fn rect_command_degenerate_issues_no_transaction() {
    assert!(rect(100, 0, 0, 50, 0).is_empty());
    assert!(rect(0, 0, 0, 50, 0).is_empty());
    assert!(rect(0, 100, 50, 50, 0).is_empty());
    // Coordinates keep their low byte: 256 is column 0.
    assert!(rect(0, 256, 0, 50, 0).is_empty());
}

#[test]
fn blend_ends_reproduce_the_colors() {
    let white = Rgb::white();
    let black = Rgb::black();
    assert_eq!(blend_pixel(white, black, 0), 0x0000);
    assert_eq!(blend_pixel(white, black, 255), 0xFFFF);
    assert_eq!(blend_pixel(black, white, 0), 0xFFFF);
    let fg = Rgb { r: 201, g: 101, b: 51 };
    let bg = Rgb { r: 33, g: 66, b: 99 };
    assert_eq!(blend_pixel(fg, bg, 0), to_565(bg));
    assert_eq!(blend_pixel(fg, bg, 255), to_565(fg));
    assert_eq!(to_565(bg), 8716);
    assert_eq!(to_565(fg), 52006);
}

#[test]
fn blend_formula_values() {
    // 255 * 10 = 2550: red 1, green 2, blue 1.
    assert_eq!(blend_pixel(Rgb::white(), Rgb::black(), 10), 0x0841);
    // Channels whose low bits are zero come back whole at the ends.
    let bg = Rgb { r: 0, g: 0, b: 128 };
    assert_eq!(blend_pixel(Rgb::white(), bg, 0), 0x0010);
    let fg = Rgb { r: 0xF8, g: 0, b: 0 };
    assert_eq!(blend_pixel(fg, Rgb::black(), 255), 0xF800);
    // Half way: (255 * 128 + 127) / 255 = 128 in every channel.
    assert_eq!(blend_pixel(Rgb::white(), Rgb::black(), 128), to_565(Rgb { r: 128, g: 128, b: 128 }));
}

#[test]
fn five_six_five_round_trip() {
    assert_eq!(from_565(0b00000_000000_10000), Rgb { r: 0, g: 0, b: 128 });
    assert_eq!(from_565(0xFFFF), Rgb { r: 248, g: 252, b: 248 });
    assert_eq!(to_565(from_565(0xA5C3)), 0xA5C3);
}

#[test]
fn row_colors() {
    assert_eq!(linecolor(0), Some(16));
    assert_eq!(linecolor(1), Some(12));
    assert_eq!(linecolor(3), Some(6));
    assert_eq!(linecolor(6), Some(16));
    assert_eq!(linecolor(7), None);
}

#[test]
fn blank_line_paints_the_row() {
    let ops = blank_line(3);
    assert_eq!(ops, with_fill(window(8, 232, 105, 135), 6, 224 * 30 * 2));
    assert!(blank_line(7).is_empty());
}

#[test]
fn layout_rows() {
    let mut buf = LcdBuf::new();
    let lens: Vec<usize> = (0..7).map(|i| buf.get_line(i).unwrap().len()).collect();
    assert_eq!(lens, vec![7, 11, 13, 14, 13, 11, 7]);
    assert!(buf.get_line(3).unwrap().iter().all(|b| *b == b' '));
    assert!(buf.get_line(7).is_none());
    buf.get_line_mut(2).unwrap()[0] = b'Z';
    assert_eq!(buf.line2[0], b'Z');
    assert!(buf.get_line_mut(9).is_none());
    assert_eq!(buf.get_x_range(0), Some((64, 176)));
    assert_eq!(buf.get_x_range(3), Some((8, 232)));
    assert_eq!(buf.get_y_range(6), Some((195, 225)));
    assert_eq!(buf.get_y_range(7), None);
}

fn alpha_atlas(alpha: u8) -> Vec<u8> {
    vec![alpha; 14 * 32 * 31 * 3]
}

fn row_font(atlas: &[u8]) -> Font<'_> {
    Font {
        font: atlas,
        font_width_chars: 32,
        font_height_chars: 3,
        char_width_px: 14,
        char_height_px: 31,
    }
}

#[test]
fn print_line_centres_trimmed_text() {
    let atlas = alpha_atlas(255);
    let f = row_font(&atlas);
    let r = print_line(&f, 0, "  hi  ");
    assert!(r.consumed);
    let blank = blank_line(0);
    assert_eq!(&r.ops[..blank.len()], &blank[..]);
    let rest = &r.ops[blank.len()..];
    assert_eq!(rest.len(), 12);
    assert_eq!(&rest[..5], &window(106, 120, 15, 46)[..]);
    assert_eq!(rest[5], BusOp::Stream(vec![0xFF; 14 * 31 * 2]));
    assert_eq!(&rest[6..11], &window(120, 134, 15, 46)[..]);
}

#[test]
fn print_line_background_pixels_blend_to_row_color() {
    let atlas = alpha_atlas(0);
    let f = row_font(&atlas);
    let r = print_line(&f, 0, "x");
    let last = r.ops.last().unwrap();
    // Row 0 is blue 128; at alpha 0 the blend gives it back exactly.
    assert_eq!(*last, BusOp::Stream([0x00, 0x10].repeat(14 * 31)));
}

#[test]
fn print_line_blank_text_only_blanks() {
    let atlas = alpha_atlas(255);
    let f = row_font(&atlas);
    let r = print_line(&f, 0, " \r\n ");
    assert!(!r.consumed);
    assert_eq!(r.ops, blank_line(0));
}

#[test]
fn print_line_trims_unicode_white_space() {
    let atlas = alpha_atlas(255);
    let f = row_font(&atlas);
    let plain = print_line(&f, 2, "hi");
    let spaced = print_line(&f, 2, "\u{a0}hi\u{2003}\n");
    assert!(spaced.consumed);
    assert_eq!(spaced.ops, plain.ops);
    let only_space = print_line(&f, 2, "\u{a0}\u{3000}");
    assert!(!only_space.consumed);
    assert_eq!(only_space.ops, blank_line(2));
}

#[test]
fn print_trimmed_takes_text_as_given() {
    let atlas = alpha_atlas(255);
    let f = row_font(&atlas);
    let r = print_trimmed(&f, 0, b" a");
    assert!(r.consumed);
    let blank = blank_line(0);
    // Two cells: the space is drawn as a glyph too.
    assert_eq!(r.ops.len(), blank.len() + 2 * 6);
    assert!(!print_trimmed(&f, 0, b"").consumed);
}

#[test]
fn print_line_past_last_row_does_nothing() {
    let atlas = alpha_atlas(255);
    let f = row_font(&atlas);
    let r = print_line(&f, 7, "hello");
    assert!(!r.consumed);
    assert!(r.ops.is_empty());
}

#[test]
fn print_line_truncates_to_row_capacity() {
    let atlas = alpha_atlas(255);
    let f = row_font(&atlas);
    let r = print_line(&f, 0, "abcdefghij");
    let blank = blank_line(0);
    assert_eq!(r.ops.len(), blank.len() + 7 * 6);
    assert_eq!(&r.ops[blank.len()..blank.len() + 5], &window(71, 85, 15, 46)[..]);
}

#[test]
fn print_line_skips_characters_outside_the_atlas() {
    let atlas = alpha_atlas(255);
    let f = row_font(&atlas);
    let r = print_line(&f, 3, "a\x01b");
    let blank = blank_line(3);
    assert_eq!(r.ops.len(), blank.len() + 2 * 6);
    // Three cells are centred; the middle one stays blank.
    let x0 = 8 + (224 - 3 * 14) / 2;
    assert_eq!(&r.ops[blank.len()..blank.len() + 5], &window(x0, x0 + 14, 105, 136)[..]);
    assert_eq!(
        &r.ops[blank.len() + 6..blank.len() + 11],
        &window(x0 + 28, x0 + 42, 105, 136)[..]
    );
}

#[test]
fn alpha_glyph_rendering() {
    let atlas = [0u8, 255, 10, 20, 255, 0, 30, 40];
    let f = Font {
        font: &atlas,
        font_width_chars: 2,
        font_height_chars: 1,
        char_width_px: 2,
        char_height_px: 2,
    };
    assert_eq!(f.char_buf_size(), 8);
    let mut buf = [0u8; 8];
    assert_eq!(f.font_alpha_to_be_bytes(&mut buf, 0, 0, Rgb::white(), Rgb::black()), Ok(()));
    assert_eq!(buf, [0, 0, 0xFF, 0xFF, 0xFF, 0xFF, 0, 0]);
    assert_eq!(f.font_alpha_to_be_bytes(&mut buf, 1, 0, Rgb::white(), Rgb::black()), Ok(()));
    assert_eq!(&buf[..2], &[0x08, 0x41]);
    let mut short = [7u8; 6];
    assert_eq!(f.font_alpha_to_be_bytes(&mut short, 0, 0, Rgb::white(), Rgb::black()), Err(()));
    assert_eq!(short, [7u8; 6]);
    // A longer buffer takes the glyph in front and keeps the rest.
    let mut long = [7u8; 10];
    assert_eq!(f.font_alpha_to_be_bytes(&mut long, 0, 0, Rgb::white(), Rgb::black()), Ok(()));
    assert_eq!(long, [0, 0, 0xFF, 0xFF, 0xFF, 0xFF, 0, 0, 7, 7]);
    // A cell outside the grid writes nothing.
    let mut untouched = [5u8; 8];
    assert_eq!(f.font_alpha_to_be_bytes(&mut untouched, 2, 0, Rgb::white(), Rgb::black()), Ok(()));
    assert_eq!(f.font_alpha_to_be_bytes(&mut untouched, 0, 1, Rgb::white(), Rgb::black()), Ok(()));
    assert_eq!(untouched, [5u8; 8]);
    // A longer atlas is fine, a shorter one is not.
    let bigger = [0u8, 255, 10, 20, 255, 0, 30, 40, 99];
    let g = Font { font: &bigger, ..f };
    assert_eq!(g.font_alpha_to_be_bytes(&mut buf, 0, 0, Rgb::white(), Rgb::black()), Ok(()));
    let smaller = [0u8; 7];
    let h = Font { font: &smaller, ..f };
    assert_eq!(h.font_alpha_to_be_bytes(&mut buf, 0, 0, Rgb::white(), Rgb::black()), Err(()));
}

#[test]
fn bit_glyph_rendering() {
    let atlas = [0b1000_0001u8, 0xFF, 0x00, 0x0F];
    let f = Font {
        font: &atlas,
        font_width_chars: 2,
        font_height_chars: 1,
        char_width_px: 8,
        char_height_px: 2,
    };
    assert_eq!(f.font_bin_size(), 4);
    assert_eq!(f.char_buf_size(), 32);
    let set = [0xAB, 0xCD];
    let clr = [0x01, 0x02];
    let mut buf = [0u8; 32];
    assert_eq!(f.font_bit_to_be_bytes(&mut buf, 0, 0, 0xABCD, 0x0102), Ok(()));
    let mut expected: Vec<u8> = Vec::new();
    expected.extend(set);
    for _ in 0..6 {
        expected.extend(clr);
    }
    expected.extend(set);
    for _ in 0..8 {
        expected.extend(clr);
    }
    assert_eq!(buf.to_vec(), expected);
    assert_eq!(f.font_bit_to_be_bytes(&mut buf, 1, 0, 0xABCD, 0x0102), Ok(()));
    let mut expected: Vec<u8> = Vec::new();
    for _ in 0..8 {
        expected.extend(set);
    }
    for _ in 0..4 {
        expected.extend(clr);
    }
    for _ in 0..4 {
        expected.extend(set);
    }
    assert_eq!(buf.to_vec(), expected);
    let mut wrong = [0u8; 30];
    assert_eq!(f.font_bit_to_be_bytes(&mut wrong, 0, 0, 1, 2), Err(()));
    let small = [0u8; 3];
    let g = Font { font: &small, ..f };
    assert_eq!(g.font_bit_to_be_bytes(&mut buf, 0, 0, 1, 2), Err(()));
    // A cell outside the grid succeeds and writes nothing.
    let before = buf;
    assert_eq!(f.font_bit_to_be_bytes(&mut buf, 2, 0, 1, 2), Ok(()));
    assert_eq!(f.font_bit_to_be_bytes(&mut buf, 0, 1, 1, 2), Ok(()));
    assert_eq!(buf, before);
}

#[test]
fn font_sizes_of_the_board_fonts() {
    let none: [u8; 0] = [];
    let bit = Font {
        font: &none,
        font_width_chars: 32,
        font_height_chars: 6,
        char_width_px: 16,
        char_height_px: 29,
    };
    assert_eq!(bit.char_buf_size(), 928);
    assert_eq!(bit.font_bin_size(), 11136);
    let alpha = row_font(&none);
    assert_eq!(alpha.char_buf_size(), 868);
}

#[test]
fn sample_word_demos() {
    let atlas = alpha_atlas(255);
    let f = row_font(&atlas);
    let ops = font2(&f, 10, 20).unwrap();
    assert_eq!(ops.len(), 5 * 6);
    assert_eq!(&ops[..5], &window(10, 24, 20, 51)[..]);
    assert_eq!(&ops[24..29], &window(66, 80, 20, 51)[..]);

    let bits = vec![0xFFu8; 16 * 32 * 29 * 6 / 8];
    let b = Font {
        font: &bits,
        font_width_chars: 32,
        font_height_chars: 6,
        char_width_px: 16,
        char_height_px: 29,
    };
    let ops = font(&b, 0, 0).unwrap();
    assert_eq!(ops.len(), 5 * 6);
    assert_eq!(&ops[..5], &window(0, 16, 0, 29)[..]);
    assert_eq!(ops[5], BusOp::Stream(vec![0xFF; 16 * 29 * 2]));
    assert_eq!(font(&b, 176, 0), Err(ErrorKind::BadLiteral));
    assert!(font(&b, 175, 226).is_ok());
    assert_eq!(font2(&f, 186, 0), Err(ErrorKind::BadLiteral));
    assert_eq!(font2(&f, 0, 225), Err(ErrorKind::BadLiteral));
}
