//! Solid rectangles: an address window followed by a run of one repeated
//! 16-bit color, sent from one fixed transfer buffer in bounded pieces.
use vstd::prelude::*;

use crate::bus::{lemma_writes_push, push_window, window_writes, writes, BusOp, BusWrite};

verus! {

/// Largest single pixel transfer, in bytes.
pub const TRANSFER_CHUNK: usize = 4096;

/// High byte of a 16-bit color (sent first).
pub open spec fn color_hi(c: u16) -> u8 {
    (c / 256) as u8
}

/// Low byte of a 16-bit color.
pub open spec fn color_lo(c: u16) -> u8 {
    (c % 256) as u8
}

/// `len` bytes of the big-endian color `c` repeated, starting on a high byte.
pub open spec fn color_run(c: u16, len: nat) -> Seq<u8> {
    Seq::new(len, |j: int| if j % 2 == 0 { color_hi(c) } else { color_lo(c) })
}

/// The pixel transfers for `len` bytes of color `c`: full chunks of
/// `TRANSFER_CHUNK` bytes, then what is left.
pub open spec fn color_chunks(c: u16, len: nat) -> Seq<BusWrite>
    decreases len,
{
    if len == 0 {
        Seq::empty()
    } else if len <= TRANSFER_CHUNK {
        seq![BusWrite::Stream(color_run(c, len))]
    } else {
        seq![BusWrite::Stream(color_run(c, TRANSFER_CHUNK as nat))] + color_chunks(
            c,
            (len - TRANSFER_CHUNK) as nat,
        )
    }
}

/// A rectangle with no pixels: its end does not lie past its start.
pub open spec fn is_degenerate(xs: u8, xe: u8, ys: u8, ye: u8) -> bool {
    xe <= xs || ye <= ys
}

/// Number of bytes of pixel data in the rectangle.
pub open spec fn rect_bytes(xs: u8, xe: u8, ys: u8, ye: u8) -> nat {
    ((xe - xs) * (ye - ys) * 2) as nat
}

/// The writes that fill columns `xs..xe`, rows `ys..ye` with color `c`: none
/// for a degenerate rectangle, else the window and one fill of all its bytes.
pub open spec fn rect_writes(xs: u8, xe: u8, ys: u8, ye: u8, c: u16) -> Seq<BusWrite> {
    if is_degenerate(xs, xe, ys, ye) {
        Seq::empty()
    } else {
        window_writes(xs, xe, ys, ye).push(BusWrite::Fill(c, rect_bytes(xs, xe, ys, ye)))
    }
}

/// Size of the next transfer of a fill that has `remaining` bytes left.
pub open spec fn transfer_size(remaining: nat) -> nat {
    if remaining < TRANSFER_CHUNK {
        remaining
    } else {
        TRANSFER_CHUNK as nat
    }
}

/// Sending the first `transfer_size(len)` bytes of a transfer buffer filled
/// with the color, then the rest of the fill, sends exactly the transfers of
/// the fill.
pub proof fn lemma_fill_transfer(c: u16, len: nat)
    requires
        len > 0,
    ensures
        color_chunks(c, len) == seq![
            BusWrite::Stream(color_run(c, TRANSFER_CHUNK as nat).take(transfer_size(len) as int)),
        ] + color_chunks(c, (len - transfer_size(len)) as nat),
        transfer_size(len) > 0,
{
    assert(color_run(c, TRANSFER_CHUNK as nat).take(transfer_size(len) as int) =~= color_run(
        c,
        transfer_size(len),
    ));
    if len <= TRANSFER_CHUNK {
        assert(color_chunks(c, 0) == Seq::<BusWrite>::empty());
        assert(seq![BusWrite::Stream(color_run(c, len))] + Seq::<BusWrite>::empty() =~= seq![
            BusWrite::Stream(color_run(c, len)),
        ]);
    }
}

/// Fills the fixed transfer buffer with the big-endian color `c`, repeated.
pub fn fill_transfer_buffer(buf: &mut [u8; 4096], c: u16)
    ensures
        final(buf)@ == color_run(c, TRANSFER_CHUNK as nat),
{
    let hi = (c / 256) as u8;
    let lo = (c % 256) as u8;
    let mut i: usize = 0;
    while i < TRANSFER_CHUNK
        invariant
            i <= TRANSFER_CHUNK,
            buf@.len() == TRANSFER_CHUNK,
            hi == color_hi(c),
            lo == color_lo(c),
            forall|j: int|
                0 <= j < i ==> #[trigger] buf@[j] == color_run(c, TRANSFER_CHUNK as nat)[j],
        decreases TRANSFER_CHUNK - i,
    {
        if i % 2 == 0 {
            buf[i] = hi;
        } else {
            buf[i] = lo;
        }
        i = i + 1;
    }
    proof {
        assert(buf@ =~= color_run(c, TRANSFER_CHUNK as nat));
    }
}

/// Size of the next transfer of a fill with `remaining` bytes left.
pub fn next_transfer(remaining: usize) -> (r: usize)
    ensures
        r == transfer_size(remaining as nat),
{
    if remaining < TRANSFER_CHUNK {
        remaining
    } else {
        TRANSFER_CHUNK
    }
}

/// Appends the writes that fill columns `xs..xe`, rows `ys..ye` with `color`;
/// appends nothing when the rectangle is degenerate.
pub fn push_rect(ops: &mut Vec<BusOp>, xs: u8, xe: u8, ys: u8, ye: u8, color: u16)
    ensures
        writes(final(ops)@) == writes(old(ops)@) + rect_writes(xs, xe, ys, ye, color),
{
    if ye <= ys || xe <= xs {
        proof {
            assert(writes(ops@) + Seq::<BusWrite>::empty() =~= writes(ops@));
        }
        return;
    }
    let ghost start = ops@;
    push_window(ops, xs, xe, ys, ye);
    let w = (xe - xs) as usize;
    let h = (ye - ys) as usize;
    proof {
        assert(h * w <= 255 * 255) by (nonlinear_arith)
            requires
                h <= 255,
                w <= 255,
        ;
        assert(h * w == w * h) by (nonlinear_arith);
    }
    let ghost mid = ops@;
    let op = BusOp::Fill { color, len: h * w * 2 };
    let ghost gop = op;
    ops.push(op);
    proof {
        lemma_writes_push(mid, gop);
        assert(writes(ops@) =~= writes(start) + rect_writes(xs, xe, ys, ye, color));
    }
}

/// The bus operations that fill columns `xs..xe`, rows `ys..ye` (end
/// exclusive) with the 5-6-5 color `color`: an address window, then one fill
/// of the repeated color over all the rectangle's bytes. A degenerate
/// rectangle (`xe <= xs` or `ye <= ys`) gives no operation at all.
pub fn fill_rect(xs: u8, xe: u8, ys: u8, ye: u8, color: u16) -> (r: Vec<BusOp>)
    ensures
        writes(r@) == rect_writes(xs, xe, ys, ye, color),
        is_degenerate(xs, xe, ys, ye) ==> r@.len() == 0,
{
    let mut ops: Vec<BusOp> = Vec::new();
    push_rect(&mut ops, xs, xe, ys, ye, color);
    proof {
        assert(writes(Seq::<BusOp>::empty()) =~= Seq::<BusWrite>::empty());
        assert(Seq::<BusWrite>::empty() + rect_writes(xs, xe, ys, ye, color) =~= rect_writes(
            xs,
            xe,
            ys,
            ye,
            color,
        ));
        if is_degenerate(xs, xe, ys, ye) {
            assert(writes(ops@).len() == 0);
        }
    }
    ops
}

} // verus!
