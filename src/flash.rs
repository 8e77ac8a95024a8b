//! Identification of the external SPI flash chip (JEDEC "Read ID").
use vstd::prelude::*;
use vstd::utf8::encode_utf8;

use crate::bytes::push_str;
use crate::editor::{hex_digit, hex_upper, CR, LF};

verus! {

/// JEDEC "Read ID" command byte.
pub const READ_ID: u8 = 0x9F;

/// The full-duplex transfer that asks for the ID: the command byte and
/// three placeholder bytes during which the chip answers.
pub fn id_request() -> (r: [u8; 4])
    ensures
        r@ == seq![READ_ID, 0u8, 0u8, 0u8],
{
    let r = [READ_ID, 0u8, 0u8, 0u8];
    proof {
        assert(r@ =~= seq![READ_ID, 0u8, 0u8, 0u8]);
    }
    r
}

/// The ID in the bytes received during the request: manufacturer, then
/// the two device-ID bytes, following the command byte.
pub fn id_from_reply(buf: &[u8; 4]) -> (r: [u8; 3])
    ensures
        r@ == buf@.subrange(1, 4),
{
    let r = [buf[1], buf[2], buf[3]];
    proof {
        assert(r@ =~= buf@.subrange(1, 4));
    }
    r
}

/// Two upper-case hex digits of a byte.
pub open spec fn hex_pair(b: u8) -> Seq<u8> {
    seq![hex_digit(b / 16), hex_digit(b % 16)]
}

/// The line that reports a flash ID: `SPI said: [EF, 40, 18]` and CR LF.
pub open spec fn id_report(id: Seq<u8>) -> Seq<u8> {
    encode_utf8("SPI said: ["@) + hex_pair(id[0]) + encode_utf8(", "@) + hex_pair(id[1])
        + encode_utf8(", "@) + hex_pair(id[2]) + seq![0x5du8, CR, LF]
}

/// Appends two upper-case hex digits of `b`.
fn push_hex(v: &mut Vec<u8>, b: u8)
    ensures
        final(v)@ == old(v)@ + hex_pair(b),
{
    let ghost start = v@;
    v.push(hex_upper(b / 16));
    v.push(hex_upper(b % 16));
    proof {
        assert(v@ =~= start + hex_pair(b));
    }
}

/// The `get_spi_id` report for an ID read from the flash chip.
pub fn id_report_bytes(id: &[u8; 3]) -> (r: Vec<u8>)
    ensures
        r@ == id_report(id@),
{
    let mut v: Vec<u8> = Vec::new();
    let ghost s0 = v@;
    push_str(&mut v, "SPI said: [");
    push_hex(&mut v, id[0]);
    push_str(&mut v, ", ");
    push_hex(&mut v, id[1]);
    push_str(&mut v, ", ");
    push_hex(&mut v, id[2]);
    let ghost s1 = v@;
    v.push(0x5du8);
    v.push(CR);
    v.push(LF);
    proof {
        assert(s0 =~= Seq::<u8>::empty());
        assert(v@ =~= s1 + seq![0x5du8, CR, LF]);
        assert(v@ =~= id_report(id@));
    }
    v
}

} // verus!
