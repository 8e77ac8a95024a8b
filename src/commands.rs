//! The console's native commands, from the values they pop off the data
//! stack to what they produce. Values are popped in reverse of the order
//! they were pushed; the parameters below are in push order.
use vstd::prelude::*;

use crate::bus::{writes, BusOp};
use crate::color::{rgb_to_i32, rgb_word, Rgb};
use crate::errors::ErrorKind;
use crate::leds::{clamp_duty, clamp_u16, led_config, Leds};
use crate::raster::{fill_rect, rect_writes};

verus! {

/// The `rect` command (`xs xe ys ye color rect`): fills columns `xs..xe`,
/// rows `ys..ye` with a 5-6-5 color. Coordinates keep their low 8 bits and
/// the color its low 16; a degenerate rectangle draws nothing.
pub fn rect(xs: i32, xe: i32, ys: i32, ye: i32, color: i32) -> (r: Vec<BusOp>)
    ensures
        writes(r@) == rect_writes(xs as u8, xe as u8, ys as u8, ye as u8, color as u16),
{
    fill_rect(xs as u8, xe as u8, ys as u8, ye as u8, color as u16)
}

/// The `set_led` command (`idx amount set_led`): the amount is clamped to
/// 0..=65535; an index outside 0..=3 fails with `BadLiteral` and changes
/// nothing.
pub fn set_led(leds: &mut Leds, idx: i32, amount: i32) -> (r: Result<(), ErrorKind>)
    ensures
        r.is_ok() <==> 0 <= idx < 4,
        r.is_err() ==> r == Err::<(), ErrorKind>(ErrorKind::BadLiteral),
        0 <= idx < 4 ==> final(leds).led(idx as int) == led_config(idx as int, clamp_duty(amount)),
        forall|i: int| 0 <= i < 4 && i != idx ==> #[trigger] final(leds).led(i) == old(leds).led(i),
{
    if idx < 0 || idx > 3 {
        return Err(ErrorKind::BadLiteral);
    }
    let amt = clamp_u16(amount);
    match leds.set_led(idx as u8, amt) {
        Ok(()) => Ok(()),
        Err(()) => Err(ErrorKind::BadLiteral),
    }
}

/// The `sleep::s` and `sleep::ms` commands: `count` units of `unit_ms`
/// milliseconds. A negative count fails with `BadLiteral`.
pub fn sleep_ms(count: i32, unit_ms: u32) -> (r: Result<u64, ErrorKind>)
    ensures
        r.is_ok() <==> count >= 0,
        r.is_ok() ==> r.unwrap() == count * unit_ms,
        r.is_err() ==> r == Err::<u64, ErrorKind>(ErrorKind::BadLiteral),
{
    if count < 0 {
        return Err(ErrorKind::BadLiteral);
    }
    proof {
        assert(count * unit_ms <= 0x7fff_ffff * 0xffff_ffff) by (nonlinear_arith)
            requires
                0 <= count <= 0x7fff_ffff,
                unit_ms <= 0xffff_ffff,
        ;
    }
    Ok(count as u64 * unit_ms as u64)
}

/// A point on the color wheel: red through green and blue back to red as
/// the position goes from 0 to 255.
pub open spec fn wheel_color(pos: u8) -> Rgb {
    let w = 255 - pos;
    if w < 85 {
        Rgb { r: (255 - w * 3) as u8, g: 0, b: (w * 3) as u8 }
    } else if w < 170 {
        Rgb { r: 0, g: ((w - 85) * 3) as u8, b: (255 - (w - 85) * 3) as u8 }
    } else {
        Rgb { r: ((w - 170) * 3) as u8, g: (255 - (w - 170) * 3) as u8, b: 0 }
    }
}

/// The color at position `wheel_pos` of the color wheel.
pub fn wheel(wheel_pos: u8) -> (r: Rgb)
    ensures
        r == wheel_color(wheel_pos),
{
    let w = 255 - wheel_pos;
    if w < 85 {
        Rgb { r: 255 - w * 3, g: 0, b: w * 3 }
    } else if w < 170 {
        let v = w - 85;
        Rgb { r: 0, g: v * 3, b: 255 - v * 3 }
    } else {
        let v = w - 170;
        Rgb { r: v * 3, g: 255 - v * 3, b: 0 }
    }
}

/// The `wheel` command: the packed color word of the wheel position given
/// by the low 8 bits of `pos`.
pub fn conv_wheel(pos: i32) -> (r: i32)
    ensures
        r == rgb_word(wheel_color(pos as u8)),
{
    rgb_to_i32(wheel(pos as u8))
}

} // verus!
