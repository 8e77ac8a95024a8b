//! The console's line editor: turns raw input bytes, one at a time, into
//! local echo and completed lines.
use vstd::prelude::*;

use crate::bytes::slice_to_vec;
use crate::line_buf::{line_as_slice, line_bytes, line_clear, line_new, line_pop, line_push};

verus! {

/// Carriage return.
pub const CR: u8 = 0x0d;

/// Line feed.
pub const LF: u8 = 0x0a;

/// Backspace.
pub const BS: u8 = 0x08;

/// Delete, sent by most terminals for the backspace key.
pub const DEL: u8 = 0x7f;

/// Printable ASCII: neither a control byte nor outside ASCII.
pub open spec fn is_printable(b: u8) -> bool {
    0x20 <= b && b < 0x7f
}

/// A byte that ends the line: CR or LF.
pub open spec fn is_terminator(b: u8) -> bool {
    b == CR || b == LF
}

/// A byte that erases the last character: BS or DEL.
pub open spec fn is_erase(b: u8) -> bool {
    b == BS || b == DEL
}

/// Upper-case ASCII hex digit for a value below 16.
pub open spec fn hex_digit(n: u8) -> u8 {
    if n < 10 {
        (0x30 + n) as u8
    } else {
        (0x41 + n - 10) as u8
    }
}

/// The echo of a byte that is neither printable nor an editing key: `?XX?`,
/// with `XX` its value in upper-case hex.
pub open spec fn escape_echo(b: u8) -> Seq<u8> {
    seq![0x3fu8, hex_digit(b / 16), hex_digit(b % 16), 0x3fu8]
}

/// The echo that erases one character on a terminal: back, space, back.
pub open spec fn erase_echo() -> Seq<u8> {
    seq![BS, 0x20u8, BS]
}

/// What one input byte does, seen as values.
pub enum EditEffect {
    Echo(Seq<u8>),
    Dispatch(Seq<u8>),
    Overflow,
}

/// What one input byte does to the line being typed.
pub open spec fn next_line(line: Seq<u8>, b: u8) -> Seq<u8> {
    if is_terminator(b) {
        Seq::empty()
    } else if is_printable(b) {
        if line.len() < 128 {
            line.push(b)
        } else {
            line
        }
    } else if is_erase(b) && line.len() > 0 {
        line.drop_last()
    } else {
        line
    }
}

/// What one input byte produces, given the line typed so far.
pub open spec fn edit_effect(line: Seq<u8>, b: u8) -> EditEffect {
    if is_terminator(b) {
        EditEffect::Dispatch(line)
    } else if is_printable(b) {
        if line.len() < 128 {
            EditEffect::Echo(seq![b])
        } else {
            EditEffect::Overflow
        }
    } else if is_erase(b) {
        if line.len() > 0 {
            EditEffect::Echo(erase_echo())
        } else {
            EditEffect::Echo(Seq::empty())
        }
    } else {
        EditEffect::Echo(escape_echo(b))
    }
}

/// The line left after feeding `bytes` one at a time, starting from `line`.
pub open spec fn line_after(line: Seq<u8>, bytes: Seq<u8>) -> Seq<u8>
    decreases bytes.len(),
{
    if bytes.len() == 0 {
        line
    } else {
        line_after(next_line(line, bytes[0]), bytes.drop_first())
    }
}

/// The lines handed over, in order, while feeding `bytes` one at a time,
/// starting from `line`.
pub open spec fn dispatched(line: Seq<u8>, bytes: Seq<u8>) -> Seq<Seq<u8>>
    decreases bytes.len(),
{
    if bytes.len() == 0 {
        Seq::empty()
    } else {
        let first = match edit_effect(line, bytes[0]) {
            EditEffect::Dispatch(l) => seq![l],
            _ => Seq::empty(),
        };
        first + dispatched(next_line(line, bytes[0]), bytes.drop_first())
    }
}

/// Feeding bytes that end in CR or LF, with no terminator before the last,
/// hands over exactly one line: the one those earlier bytes built up from
/// `line`, the line typed since the last dispatch or clear. The editor is
/// empty afterwards.
pub proof fn lemma_dispatch_exact(line: Seq<u8>, bytes: Seq<u8>)
    requires
        bytes.len() > 0,
        is_terminator(bytes.last()),
        forall|i: int| 0 <= i < bytes.len() - 1 ==> !is_terminator(#[trigger] bytes[i]),
    ensures
        dispatched(line, bytes) == seq![line_after(line, bytes.drop_last())],
        line_after(line, bytes) == Seq::<u8>::empty(),
    decreases bytes.len(),
{
    let rest = bytes.drop_first();
    if bytes.len() == 1 {
        assert(rest.len() == 0);
        assert(line_after(next_line(line, bytes[0]), rest) == next_line(line, bytes[0]));
        assert(dispatched(next_line(line, bytes[0]), rest) == Seq::<Seq<u8>>::empty());
        assert(seq![line] + Seq::<Seq<u8>>::empty() =~= seq![line]);
        assert(bytes.drop_last() =~= Seq::<u8>::empty());
    } else {
        assert(!is_terminator(bytes[0]));
        assert forall|i: int| 0 <= i < rest.len() - 1 implies !is_terminator(#[trigger] rest[i]) by {
            assert(rest[i] == bytes[i + 1]);
        }
        assert(rest.last() == bytes.last());
        lemma_dispatch_exact(next_line(line, bytes[0]), rest);
        assert(bytes.drop_last().drop_first() =~= rest.drop_last());
        assert(bytes.drop_last()[0] == bytes[0]);
        assert(Seq::<Seq<u8>>::empty() + dispatched(next_line(line, bytes[0]), rest)
            =~= dispatched(next_line(line, bytes[0]), rest));
    }
}

/// The result of feeding one byte to the editor.
#[derive(Debug, PartialEq, Eq)]
pub enum Step {
    /// Bytes to send back to the terminal (possibly none).
    Echo(Vec<u8>),
    /// A line was completed; it is to be handed to the interpreter.
    Dispatch(Vec<u8>),
    /// A printable byte arrived while the line buffer was full. The byte was
    /// not stored; the line is left as it was.
    Overflow,
}

impl Step {
    pub open spec fn view(&self) -> EditEffect {
        match self {
            Step::Echo(v) => EditEffect::Echo(v@),
            Step::Dispatch(v) => EditEffect::Dispatch(v@),
            Step::Overflow => EditEffect::Overflow,
        }
    }
}

/// The line being typed at the console.
pub struct LineEditor {
    line: heapless::Vec<u8, 128>,
}

impl LineEditor {
    /// The bytes typed since the last dispatch or clear.
    pub closed spec fn view(&self) -> Seq<u8> {
        line_bytes(self.line)
    }

    pub open spec fn wf(&self) -> bool {
        self.view().len() <= 128
    }

    /// An editor with an empty line.
    pub fn new() -> (r: Self)
        ensures
            r.wf(),
            r.view() == Seq::<u8>::empty(),
    {
        LineEditor { line: line_new() }
    }

    /// The bytes typed since the last dispatch or clear.
    pub fn as_bytes(&self) -> (r: &[u8])
        ensures
            r@ == self.view(),
    {
        line_as_slice(&self.line)
    }

    /// Drops the line typed so far.
    pub fn clear(&mut self)
        ensures
            final(self).wf(),
            final(self).view() == Seq::<u8>::empty(),
    {
        line_clear(&mut self.line);
    }

    /// Feeds one input byte: printable bytes are stored and echoed, CR or LF
    /// hands over the line and empties it, BS or DEL erase the last byte,
    /// anything else is echoed as `?XX?` and dropped.
    pub fn feed(&mut self, b: u8) -> (r: Step)
        requires
            old(self).wf(),
        ensures
            final(self).wf(),
            final(self).view() == next_line(old(self).view(), b),
            r.view() == edit_effect(old(self).view(), b),
            is_erase(b) && old(self).view().len() == 0 ==> r.view() == EditEffect::Echo(
                Seq::empty(),
            ),
            !is_printable(b) && !is_terminator(b) && !is_erase(b) ==> r.view()
                == EditEffect::Echo(escape_echo(b)),
    {
        if b == CR || b == LF {
            let line = slice_to_vec(line_as_slice(&self.line));
            line_clear(&mut self.line);
            Step::Dispatch(line)
        } else if 0x20 <= b && b < 0x7f {
            match line_push(&mut self.line, b) {
                Ok(()) => {
                    let echo = vec![b];
                    proof {
                        assert(echo@ =~= seq![b]);
                    }
                    Step::Echo(echo)
                },
                Err(_) => Step::Overflow,
            }
        } else if b == BS || b == DEL {
            match line_pop(&mut self.line) {
                Some(_) => {
                    let echo = vec![BS, 0x20u8, BS];
                    proof {
                        assert(echo@ =~= erase_echo());
                    }
                    Step::Echo(echo)
                },
                None => {
                    let echo: Vec<u8> = Vec::new();
                    proof {
                        assert(echo@ =~= Seq::<u8>::empty());
                    }
                    Step::Echo(echo)
                },
            }
        } else {
            let echo = vec![0x3fu8, hex_upper(b / 16), hex_upper(b % 16), 0x3fu8];
            proof {
                assert(echo@ =~= escape_echo(b));
            }
            Step::Echo(echo)
        }
    }
}

/// Upper-case ASCII hex digit of `n`.
pub fn hex_upper(n: u8) -> (r: u8)
    requires
        n < 16,
    ensures
        r == hex_digit(n),
{
    if n < 10 {
        0x30 + n
    } else {
        0x41 + n - 10
    }
}

} // verus!
