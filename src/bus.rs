//! Writes to the display controller, as values: the drawing routines build a
//! list of these, and the board code sends them over SPI in order.
use vstd::prelude::*;

verus! {

/// Column address set.
pub const CASET: u8 = 0x2A;

/// Row (page) address set.
pub const PASET: u8 = 0x2B;

/// Memory write: pixel data follows.
pub const RAMWR: u8 = 0x2C;

/// One write to the display controller.
#[derive(Debug, PartialEq, Eq)]
pub enum BusOp {
    /// A command byte, sent in its own chip-select frame with D/C low.
    Command(u8),
    /// Parameter bytes, sent in their own chip-select frame with D/C high.
    Data(Vec<u8>),
    /// Pixel bytes. Consecutive `Stream` and `Fill` writes belong to one
    /// chip-select frame with D/C high, opened after a memory-write command.
    Stream(Vec<u8>),
    /// `len` pixel bytes of one repeated big-endian 5-6-5 color, sent from a
    /// single fixed transfer buffer in pieces of at most `TRANSFER_CHUNK`
    /// bytes (see `raster::color_chunks`).
    Fill { color: u16, len: usize },
}

/// A bus write seen as values.
pub enum BusWrite {
    Command(u8),
    Data(Seq<u8>),
    Stream(Seq<u8>),
    Fill(u16, nat),
}

impl BusOp {
    pub open spec fn view(&self) -> BusWrite {
        match self {
            BusOp::Command(c) => BusWrite::Command(*c),
            BusOp::Data(d) => BusWrite::Data(d@),
            BusOp::Stream(d) => BusWrite::Stream(d@),
            BusOp::Fill { color, len } => BusWrite::Fill(*color, *len as nat),
        }
    }
}

/// A list of bus operations seen as values.
pub open spec fn writes(ops: Seq<BusOp>) -> Seq<BusWrite> {
    ops.map_values(|o: BusOp| o.view())
}

/// The five writes that open a drawing window over columns `xs..xe` and rows
/// `ys..ye` (end exclusive) and start a memory write.
pub open spec fn window_writes(xs: u8, xe: u8, ys: u8, ye: u8) -> Seq<BusWrite> {
    seq![
        BusWrite::Command(CASET),
        BusWrite::Data(seq![0u8, xs, 0u8, (xe - 1) as u8]),
        BusWrite::Command(PASET),
        BusWrite::Data(seq![0u8, ys, 0u8, (ye - 1) as u8]),
        BusWrite::Command(RAMWR),
    ]
}

pub proof fn lemma_writes_push(ops: Seq<BusOp>, o: BusOp)
    ensures
        writes(ops.push(o)) == writes(ops) + seq![o.view()],
{
    assert(writes(ops.push(o)) =~= writes(ops) + seq![o.view()]);
}

/// Appends the window-opening writes for columns `xs..xe` and rows `ys..ye`.
pub fn push_window(ops: &mut Vec<BusOp>, xs: u8, xe: u8, ys: u8, ye: u8)
    requires
        xe >= 1,
        ye >= 1,
    ensures
        writes(final(ops)@) == writes(old(ops)@) + window_writes(xs, xe, ys, ye),
{
    let ghost start = ops@;
    ops.push(BusOp::Command(CASET));
    let d1 = vec![0u8, xs, 0u8, xe - 1];
    proof {
        assert(d1@ =~= seq![0u8, xs, 0u8, (xe - 1) as u8]);
    }
    ops.push(BusOp::Data(d1));
    ops.push(BusOp::Command(PASET));
    let d2 = vec![0u8, ys, 0u8, ye - 1];
    proof {
        assert(d2@ =~= seq![0u8, ys, 0u8, (ye - 1) as u8]);
    }
    ops.push(BusOp::Data(d2));
    ops.push(BusOp::Command(RAMWR));
    proof {
        assert(writes(ops@) =~= writes(start) + window_writes(xs, xe, ys, ye));
    }
}

/// The writes that draw `data` into columns `xs..xe` and rows `ys..ye`.
pub open spec fn draw_writes(xs: u8, xe: u8, ys: u8, ye: u8, data: Seq<u8>) -> Seq<BusWrite> {
    window_writes(xs, xe, ys, ye).push(BusWrite::Stream(data))
}

/// Appends the writes that draw `data` (big-endian 5-6-5 pixels, row by row)
/// into columns `xs..xe` and rows `ys..ye`.
pub fn draw(ops: &mut Vec<BusOp>, xs: u8, xe: u8, ys: u8, ye: u8, data: Vec<u8>)
    requires
        xe >= 1,
        ye >= 1,
    ensures
        writes(final(ops)@) == writes(old(ops)@) + draw_writes(xs, xe, ys, ye, data@),
{
    let ghost start = ops@;
    push_window(ops, xs, xe, ys, ye);
    let ghost mid = ops@;
    let ghost d = data@;
    let op = BusOp::Stream(data);
    let ghost gop = op;
    ops.push(op);
    proof {
        lemma_writes_push(mid, gop);
        assert(writes(ops@) =~= writes(start) + draw_writes(xs, xe, ys, ye, d));
    }
}

} // verus!
