//! Change detectors behind the two polling tasks: the buttons report a
//! frame whenever their pattern changes, the dial whenever it moves far
//! enough from the last value it reported.
use vstd::prelude::*;

use crate::editor::{CR, LF};

verus! {

/// Number of buttons on the board.
pub const BUTTON_COUNT: usize = 6;

/// Smallest dial movement that is reported.
pub const DIAL_THRESHOLD: u16 = 16;

/// The frame that shows a button pattern: CR LF, then `X` for each pressed
/// button and `_` for each released one, then CR LF.
pub open spec fn button_frame(state: Seq<bool>) -> Seq<u8> {
    seq![CR, LF] + state.map_values(|b: bool| if b { 0x58u8 } else { 0x5fu8 }) + seq![CR, LF]
}

/// Builds the frame for a button pattern.
pub fn button_frame_bytes(state: &[bool; 6]) -> (r: Vec<u8>)
    ensures
        r@ == button_frame(state@),
{
    let mut v = vec![CR, LF];
    let mut i: usize = 0;
    while i < BUTTON_COUNT
        invariant
            i <= 6,
            v@ == seq![CR, LF] + state@.take(i as int).map_values(
                |b: bool|
                    if b {
                        0x58u8
                    } else {
                        0x5fu8
                    },
            ),
        decreases 6 - i,
    {
        if state[i] {
            v.push(0x58u8);
        } else {
            v.push(0x5fu8);
        }
        proof {
            assert(state@.take(i + 1) =~= state@.take(i as int).push(state@[i as int]));
            assert(v@ =~= seq![CR, LF] + state@.take(i + 1).map_values(
                |b: bool|
                    if b {
                        0x58u8
                    } else {
                        0x5fu8
                    },
            ));
        }
        i = i + 1;
    }
    v.push(CR);
    v.push(LF);
    proof {
        assert(state@.take(6) =~= state@);
        assert(v@ =~= button_frame(state@));
    }
    v
}

/// The button pattern last reported.
pub struct ButtonWatch {
    pub state: [bool; 6],
}

impl ButtonWatch {
    /// Starts from the pattern read when the task begins; nothing is reported for it.
    pub fn new(initial: [bool; 6]) -> (r: ButtonWatch)
        ensures
            r.state == initial,
    {
        ButtonWatch { state: initial }
    }

    /// Takes one poll of the buttons. An unchanged pattern gives nothing; a
    /// changed one gives exactly one frame showing the new pattern, which
    /// becomes the pattern last reported.
    pub fn poll(&mut self, now: [bool; 6]) -> (r: Option<Vec<u8>>)
        ensures
            r.is_none() <==> now@ == old(self).state@,
            r.is_some() ==> r.unwrap()@ == button_frame(now@),
            final(self).state@ == now@,
    {
        let mut same = true;
        let mut i: usize = 0;
        proof {
            assert(now@.take(0) =~= self.state@.take(0));
        }
        while i < BUTTON_COUNT
            invariant
                i <= 6,
                same <==> now@.take(i as int) == self.state@.take(i as int),
            decreases 6 - i,
        {
            proof {
                assert(now@.take(i + 1) =~= now@.take(i as int).push(now@[i as int]));
                assert(self.state@.take(i + 1) =~= self.state@.take(i as int).push(
                    self.state@[i as int],
                ));
                if now@.take(i + 1) == self.state@.take(i + 1) {
                    assert(now@.take(i + 1)[i as int] == self.state@.take(i + 1)[i as int]);
                    assert(now@.take(i as int) =~= now@.take(i + 1).drop_last());
                    assert(self.state@.take(i as int) =~= self.state@.take(i + 1).drop_last());
                }
            }
            if now[i] != self.state[i] {
                same = false;
            }
            i = i + 1;
        }
        proof {
            assert(now@.take(6) =~= now@);
            assert(self.state@.take(6) =~= self.state@);
        }
        if same {
            None
        } else {
            self.state = now;
            Some(button_frame_bytes(&now))
        }
    }
}

/// Decimal digits of `n`, most significant first, without leading zeros
/// (`0` for zero).
pub open spec fn decimal(n: nat) -> Seq<u8>
    decreases n,
{
    if n < 10 {
        seq![(0x30 + n) as u8]
    } else {
        decimal(n / 10).push((0x30 + n % 10) as u8)
    }
}

/// The decimal digits of `n`.
pub fn decimal_bytes(n: u16) -> (r: Vec<u8>)
    ensures
        r@ == decimal(n as nat),
{
    let mut rev: Vec<u8> = Vec::new();
    let mut m: u16 = n;
    proof {
        assert(decimal(n as nat) =~= decimal(n as nat) + rev@.reverse());
    }
    loop
        invariant_except_break
            decimal(n as nat) == decimal(m as nat) + rev@.reverse(),
        ensures
            decimal(n as nat) == rev@.reverse(),
        decreases m,
    {
        let ghost before = rev@;
        rev.push(0x30 + (m % 10) as u8);
        if m < 10 {
            proof {
                assert(rev@.reverse() =~= seq![(0x30 + m) as u8] + before.reverse());
                assert(decimal(m as nat) == seq![(0x30 + m) as u8]);
                assert(decimal(n as nat) =~= rev@.reverse());
            }
            break ;
        }
        proof {
            assert(rev@.reverse() =~= seq![(0x30 + m % 10) as u8] + before.reverse());
            assert(decimal(m as nat) =~= decimal((m / 10) as nat) + seq![(0x30 + m % 10) as u8]);
            assert(decimal(n as nat) =~= decimal((m / 10) as nat) + rev@.reverse());
        }
        m = m / 10;
    }
    let mut out: Vec<u8> = Vec::new();
    let mut j: usize = rev.len();
    while j > 0
        invariant
            j <= rev@.len(),
            out@ == rev@.subrange(j as int, rev@.len() as int).reverse(),
        decreases j,
    {
        j = j - 1;
        out.push(rev[j]);
        proof {
            assert(out@ =~= rev@.subrange(j as int, rev@.len() as int).reverse());
        }
    }
    proof {
        assert(rev@.subrange(0, rev@.len() as int) =~= rev@);
    }
    out
}

/// The frame that reports a dial reading: CR LF, its decimal digits, CR LF.
pub open spec fn dial_frame(level: u16) -> Seq<u8> {
    seq![CR, LF] + decimal(level as nat) + seq![CR, LF]
}

/// Distance between two readings.
pub open spec fn level_distance(a: u16, b: u16) -> int {
    if a >= b {
        a - b
    } else {
        b - a
    }
}

/// The dial reading last reported.
pub struct DialWatch {
    pub level: u16,
}

impl DialWatch {
    /// Starts from the reading taken when the task begins; nothing is reported for it.
    pub fn new(initial: u16) -> (r: DialWatch)
        ensures
            r.level == initial,
    {
        DialWatch { level: initial }
    }

    /// Takes one reading. A reading less than 16 away from the last reported
    /// one gives nothing; otherwise exactly one frame with the new value is
    /// given, and it becomes the value last reported.
    pub fn poll(&mut self, new_level: u16) -> (r: Option<Vec<u8>>)
        ensures
            r.is_some() <==> level_distance(old(self).level, new_level) >= 16,
            r.is_some() ==> r.unwrap()@ == dial_frame(new_level) && final(self).level
                == new_level,
            r.is_none() ==> final(self).level == old(self).level,
    {
        let diff = if self.level >= new_level {
            self.level - new_level
        } else {
            new_level - self.level
        };
        if diff >= DIAL_THRESHOLD {
            let mut v = vec![CR, LF];
            let digits = decimal_bytes(new_level);
            let mut i: usize = 0;
            let ghost start = v@;
            while i < digits.len()
                invariant
                    i <= digits@.len(),
                    v@ == start + digits@.take(i as int),
                decreases digits@.len() - i,
            {
                v.push(digits[i]);
                proof {
                    assert(digits@.take(i + 1) =~= digits@.take(i as int).push(digits@[i as int]));
                }
                i = i + 1;
            }
            v.push(CR);
            v.push(LF);
            proof {
                assert(digits@.take(i as int) =~= digits@);
                assert(start =~= seq![CR, LF]);
                assert(v@ =~= dial_frame(new_level));
            }
            self.level = new_level;
            Some(v)
        } else {
            None
        }
    }
}

} // verus!
