//! The panel controller's power-up sequence: register writes and pauses.
use vstd::prelude::*;

verus! {

/// Inter register enable 1.
pub const INREGEN1: u8 = 0xFE;

/// Inter register enable 2.
pub const INREGEN2: u8 = 0xEF;

/// Memory access control.
pub const MADCTL: u8 = 0x36;

/// Pixel format set.
pub const PIXFMT: u8 = 0x3A;

/// Power control 2.
pub const PWRCTL2: u8 = 0xC3;

/// Power control 3.
pub const PWRCTL3: u8 = 0xC4;

/// Power control 4.
pub const PWRCTL4: u8 = 0xC9;

/// Negative gamma correction.
pub const GMCTRN1: u8 = 0xE1;

/// Set gamma 1.
pub const GAMMA1: u8 = 0xF0;

/// Set gamma 2.
pub const GAMMA2: u8 = 0xF1;

/// Set gamma 3.
pub const GAMMA3: u8 = 0xF2;

/// Set gamma 4.
pub const GAMMA4: u8 = 0xF3;

/// Frame rate control.
pub const FRAMERATE: u8 = 0xE8;

/// Tearing effect line on.
pub const TEON: u8 = 0x35;

/// Display inversion on.
pub const INVON: u8 = 0x21;

/// Sleep out.
pub const SLPOUT: u8 = 0x11;

/// Display on.
pub const DISPON: u8 = 0x29;

/// Memory access control: right to left.
pub const MADCTL_MX: u8 = 0x40;

/// Memory access control: blue-green-red pixel order.
pub const MADCTL_BGR: u8 = 0x08;

/// A register write: the command byte, then its parameter bytes.
#[derive(Debug, PartialEq, Eq)]
pub struct InitCmd {
    pub cmd: u8,
    pub data: Vec<u8>,
}

/// One step of the power-up sequence.
#[derive(Debug, PartialEq, Eq)]
pub enum InitOp {
    Cmd(InitCmd),
    /// A pause, in milliseconds.
    Delay(u32),
}

/// A step of the power-up sequence, seen as values.
pub enum InitEntry {
    Cmd(u8, Seq<u8>),
    Delay(u32),
}

impl InitOp {
    pub open spec fn view(&self) -> InitEntry {
        match self {
            InitOp::Cmd(c) => InitEntry::Cmd(c.cmd, c.data@),
            InitOp::Delay(ms) => InitEntry::Delay(*ms),
        }
    }
}

/// The power-up sequence of the panel controller.
pub open spec fn init_table() -> Seq<InitEntry> {
    seq![
        InitEntry::Cmd(INREGEN2, Seq::empty()),
        InitEntry::Cmd(0xEBu8, seq![0x14u8]),
        InitEntry::Cmd(INREGEN1, Seq::empty()),
        InitEntry::Cmd(INREGEN2, Seq::empty()),
        InitEntry::Cmd(0xEBu8, seq![0x14u8]),
        InitEntry::Cmd(0x84u8, seq![0x40u8]),
        InitEntry::Cmd(0x85u8, seq![0xFFu8]),
        InitEntry::Cmd(0x86u8, seq![0xFFu8]),
        InitEntry::Cmd(0x87u8, seq![0xFFu8]),
        InitEntry::Cmd(0x88u8, seq![0x0Au8]),
        InitEntry::Cmd(0x89u8, seq![0x21u8]),
        InitEntry::Cmd(0x8Au8, seq![0x00u8]),
        InitEntry::Cmd(0x8Bu8, seq![0x80u8]),
        InitEntry::Cmd(0x8Cu8, seq![0x01u8]),
        InitEntry::Cmd(0x8Du8, seq![0x01u8]),
        InitEntry::Cmd(0x8Eu8, seq![0xFFu8]),
        InitEntry::Cmd(0x8Fu8, seq![0xFFu8]),
        InitEntry::Cmd(0xB6u8, seq![0x00u8, 0x00u8]),
        InitEntry::Cmd(MADCTL, seq![(MADCTL_MX | MADCTL_BGR)]),
        InitEntry::Cmd(PIXFMT, seq![0x05u8]),
        InitEntry::Cmd(0x90u8, seq![0x08u8, 0x08u8, 0x08u8, 0x08u8]),
        InitEntry::Cmd(0xBDu8, seq![0x06u8]),
        InitEntry::Cmd(0xBCu8, seq![0x00u8]),
        InitEntry::Cmd(0xFFu8, seq![0x60u8, 0x01u8, 0x04u8]),
        InitEntry::Cmd(PWRCTL2, seq![0x13u8]),
        InitEntry::Cmd(PWRCTL3, seq![0x13u8]),
        InitEntry::Cmd(PWRCTL4, seq![0x22u8]),
        InitEntry::Cmd(0xBEu8, seq![0x11u8]),
        InitEntry::Cmd(GMCTRN1, seq![0x10u8, 0x0Eu8]),
        InitEntry::Cmd(0xDFu8, seq![0x21u8, 0x0cu8, 0x02u8]),
        InitEntry::Cmd(GAMMA1, seq![0x45u8, 0x09u8, 0x08u8, 0x08u8, 0x26u8, 0x2Au8]),
        InitEntry::Cmd(GAMMA2, seq![0x43u8, 0x70u8, 0x72u8, 0x36u8, 0x37u8, 0x6Fu8]),
        InitEntry::Cmd(GAMMA3, seq![0x45u8, 0x09u8, 0x08u8, 0x08u8, 0x26u8, 0x2Au8]),
        InitEntry::Cmd(GAMMA4, seq![0x43u8, 0x70u8, 0x72u8, 0x36u8, 0x37u8, 0x6Fu8]),
        InitEntry::Cmd(0xEDu8, seq![0x1Bu8, 0x0Bu8]),
        InitEntry::Cmd(0xAEu8, seq![0x77u8]),
        InitEntry::Cmd(0xCDu8, seq![0x63u8]),
        InitEntry::Cmd(0x70u8, seq![0x07u8, 0x07u8, 0x04u8, 0x0Eu8, 0x0Fu8, 0x09u8, 0x07u8, 0x08u8, 0x03u8]),
        InitEntry::Cmd(FRAMERATE, seq![0x34u8]),
        InitEntry::Cmd(0x62u8, seq![0x18u8, 0x0Du8, 0x71u8, 0xEDu8, 0x70u8, 0x70u8, 0x18u8, 0x0Fu8, 0x71u8, 0xEFu8, 0x70u8, 0x70u8]),
        InitEntry::Cmd(0x63u8, seq![0x18u8, 0x11u8, 0x71u8, 0xF1u8, 0x70u8, 0x70u8, 0x18u8, 0x13u8, 0x71u8, 0xF3u8, 0x70u8, 0x70u8]),
        InitEntry::Cmd(0x64u8, seq![0x28u8, 0x29u8, 0xF1u8, 0x01u8, 0xF1u8, 0x00u8, 0x07u8]),
        InitEntry::Cmd(0x66u8, seq![0x3Cu8, 0x00u8, 0xCDu8, 0x67u8, 0x45u8, 0x45u8, 0x10u8, 0x00u8, 0x00u8, 0x00u8]),
        InitEntry::Cmd(0x67u8, seq![0x00u8, 0x3Cu8, 0x00u8, 0x00u8, 0x00u8, 0x01u8, 0x54u8, 0x10u8, 0x32u8, 0x98u8]),
        InitEntry::Cmd(0x74u8, seq![0x10u8, 0x85u8, 0x80u8, 0x00u8, 0x00u8, 0x4Eu8, 0x00u8]),
        InitEntry::Cmd(0x98u8, seq![0x3eu8, 0x07u8]),
        InitEntry::Cmd(TEON, Seq::empty()),
        InitEntry::Cmd(INVON, Seq::empty()),
        InitEntry::Cmd(SLPOUT, Seq::empty()),
        InitEntry::Delay(120),
        InitEntry::Cmd(DISPON, Seq::empty()),
        InitEntry::Delay(120),
    ]
}

/// Builds the power-up sequence.
#[verifier::rlimit(50)]
pub fn init_seq() -> (r: Vec<InitOp>)
    ensures
        r@.map_values(|o: InitOp| o.view()) == init_table(),
{
    let mut v: Vec<InitOp> = Vec::new();
    v.push(InitOp::Cmd(InitCmd { cmd: INREGEN2, data: Vec::new() }));
    let d = vec![0x14u8];
    proof {
        assert(d@ =~= seq![0x14u8]);
    }
    v.push(InitOp::Cmd(InitCmd { cmd: 0xEBu8, data: d }));
    v.push(InitOp::Cmd(InitCmd { cmd: INREGEN1, data: Vec::new() }));
    v.push(InitOp::Cmd(InitCmd { cmd: INREGEN2, data: Vec::new() }));
    let d = vec![0x14u8];
    proof {
        assert(d@ =~= seq![0x14u8]);
    }
    v.push(InitOp::Cmd(InitCmd { cmd: 0xEBu8, data: d }));
    let d = vec![0x40u8];
    proof {
        assert(d@ =~= seq![0x40u8]);
    }
    v.push(InitOp::Cmd(InitCmd { cmd: 0x84u8, data: d }));
    let d = vec![0xFFu8];
    proof {
        assert(d@ =~= seq![0xFFu8]);
    }
    v.push(InitOp::Cmd(InitCmd { cmd: 0x85u8, data: d }));
    let d = vec![0xFFu8];
    proof {
        assert(d@ =~= seq![0xFFu8]);
    }
    v.push(InitOp::Cmd(InitCmd { cmd: 0x86u8, data: d }));
    let d = vec![0xFFu8];
    proof {
        assert(d@ =~= seq![0xFFu8]);
    }
    v.push(InitOp::Cmd(InitCmd { cmd: 0x87u8, data: d }));
    let d = vec![0x0Au8];
    proof {
        assert(d@ =~= seq![0x0Au8]);
    }
    v.push(InitOp::Cmd(InitCmd { cmd: 0x88u8, data: d }));
    let d = vec![0x21u8];
    proof {
        assert(d@ =~= seq![0x21u8]);
    }
    v.push(InitOp::Cmd(InitCmd { cmd: 0x89u8, data: d }));
    let d = vec![0x00u8];
    proof {
        assert(d@ =~= seq![0x00u8]);
    }
    v.push(InitOp::Cmd(InitCmd { cmd: 0x8Au8, data: d }));
    let d = vec![0x80u8];
    proof {
        assert(d@ =~= seq![0x80u8]);
    }
    v.push(InitOp::Cmd(InitCmd { cmd: 0x8Bu8, data: d }));
    let d = vec![0x01u8];
    proof {
        assert(d@ =~= seq![0x01u8]);
    }
    v.push(InitOp::Cmd(InitCmd { cmd: 0x8Cu8, data: d }));
    let d = vec![0x01u8];
    proof {
        assert(d@ =~= seq![0x01u8]);
    }
    v.push(InitOp::Cmd(InitCmd { cmd: 0x8Du8, data: d }));
    let d = vec![0xFFu8];
    proof {
        assert(d@ =~= seq![0xFFu8]);
    }
    v.push(InitOp::Cmd(InitCmd { cmd: 0x8Eu8, data: d }));
    let d = vec![0xFFu8];
    proof {
        assert(d@ =~= seq![0xFFu8]);
    }
    v.push(InitOp::Cmd(InitCmd { cmd: 0x8Fu8, data: d }));
    let d = vec![0x00u8, 0x00u8];
    proof {
        assert(d@ =~= seq![0x00u8, 0x00u8]);
    }
    v.push(InitOp::Cmd(InitCmd { cmd: 0xB6u8, data: d }));
    let d = vec![(MADCTL_MX | MADCTL_BGR)];
    proof {
        assert(d@ =~= seq![(MADCTL_MX | MADCTL_BGR)]);
    }
    v.push(InitOp::Cmd(InitCmd { cmd: MADCTL, data: d }));
    let d = vec![0x05u8];
    proof {
        assert(d@ =~= seq![0x05u8]);
    }
    v.push(InitOp::Cmd(InitCmd { cmd: PIXFMT, data: d }));
    let d = vec![0x08u8, 0x08u8, 0x08u8, 0x08u8];
    proof {
        assert(d@ =~= seq![0x08u8, 0x08u8, 0x08u8, 0x08u8]);
    }
    v.push(InitOp::Cmd(InitCmd { cmd: 0x90u8, data: d }));
    let d = vec![0x06u8];
    proof {
        assert(d@ =~= seq![0x06u8]);
    }
    v.push(InitOp::Cmd(InitCmd { cmd: 0xBDu8, data: d }));
    let d = vec![0x00u8];
    proof {
        assert(d@ =~= seq![0x00u8]);
    }
    v.push(InitOp::Cmd(InitCmd { cmd: 0xBCu8, data: d }));
    let d = vec![0x60u8, 0x01u8, 0x04u8];
    proof {
        assert(d@ =~= seq![0x60u8, 0x01u8, 0x04u8]);
    }
    v.push(InitOp::Cmd(InitCmd { cmd: 0xFFu8, data: d }));
    let d = vec![0x13u8];
    proof {
        assert(d@ =~= seq![0x13u8]);
    }
    v.push(InitOp::Cmd(InitCmd { cmd: PWRCTL2, data: d }));
    let d = vec![0x13u8];
    proof {
        assert(d@ =~= seq![0x13u8]);
    }
    v.push(InitOp::Cmd(InitCmd { cmd: PWRCTL3, data: d }));
    let d = vec![0x22u8];
    proof {
        assert(d@ =~= seq![0x22u8]);
    }
    v.push(InitOp::Cmd(InitCmd { cmd: PWRCTL4, data: d }));
    let d = vec![0x11u8];
    proof {
        assert(d@ =~= seq![0x11u8]);
    }
    v.push(InitOp::Cmd(InitCmd { cmd: 0xBEu8, data: d }));
    let d = vec![0x10u8, 0x0Eu8];
    proof {
        assert(d@ =~= seq![0x10u8, 0x0Eu8]);
    }
    v.push(InitOp::Cmd(InitCmd { cmd: GMCTRN1, data: d }));
    let d = vec![0x21u8, 0x0cu8, 0x02u8];
    proof {
        assert(d@ =~= seq![0x21u8, 0x0cu8, 0x02u8]);
    }
    v.push(InitOp::Cmd(InitCmd { cmd: 0xDFu8, data: d }));
    let d = vec![0x45u8, 0x09u8, 0x08u8, 0x08u8, 0x26u8, 0x2Au8];
    proof {
        assert(d@ =~= seq![0x45u8, 0x09u8, 0x08u8, 0x08u8, 0x26u8, 0x2Au8]);
    }
    v.push(InitOp::Cmd(InitCmd { cmd: GAMMA1, data: d }));
    let d = vec![0x43u8, 0x70u8, 0x72u8, 0x36u8, 0x37u8, 0x6Fu8];
    proof {
        assert(d@ =~= seq![0x43u8, 0x70u8, 0x72u8, 0x36u8, 0x37u8, 0x6Fu8]);
    }
    v.push(InitOp::Cmd(InitCmd { cmd: GAMMA2, data: d }));
    let d = vec![0x45u8, 0x09u8, 0x08u8, 0x08u8, 0x26u8, 0x2Au8];
    proof {
        assert(d@ =~= seq![0x45u8, 0x09u8, 0x08u8, 0x08u8, 0x26u8, 0x2Au8]);
    }
    v.push(InitOp::Cmd(InitCmd { cmd: GAMMA3, data: d }));
    let d = vec![0x43u8, 0x70u8, 0x72u8, 0x36u8, 0x37u8, 0x6Fu8];
    proof {
        assert(d@ =~= seq![0x43u8, 0x70u8, 0x72u8, 0x36u8, 0x37u8, 0x6Fu8]);
    }
    v.push(InitOp::Cmd(InitCmd { cmd: GAMMA4, data: d }));
    let d = vec![0x1Bu8, 0x0Bu8];
    proof {
        assert(d@ =~= seq![0x1Bu8, 0x0Bu8]);
    }
    v.push(InitOp::Cmd(InitCmd { cmd: 0xEDu8, data: d }));
    let d = vec![0x77u8];
    proof {
        assert(d@ =~= seq![0x77u8]);
    }
    v.push(InitOp::Cmd(InitCmd { cmd: 0xAEu8, data: d }));
    let d = vec![0x63u8];
    proof {
        assert(d@ =~= seq![0x63u8]);
    }
    v.push(InitOp::Cmd(InitCmd { cmd: 0xCDu8, data: d }));
    let d = vec![0x07u8, 0x07u8, 0x04u8, 0x0Eu8, 0x0Fu8, 0x09u8, 0x07u8, 0x08u8, 0x03u8];
    proof {
        assert(d@ =~= seq![0x07u8, 0x07u8, 0x04u8, 0x0Eu8, 0x0Fu8, 0x09u8, 0x07u8, 0x08u8, 0x03u8]);
    }
    v.push(InitOp::Cmd(InitCmd { cmd: 0x70u8, data: d }));
    let d = vec![0x34u8];
    proof {
        assert(d@ =~= seq![0x34u8]);
    }
    v.push(InitOp::Cmd(InitCmd { cmd: FRAMERATE, data: d }));
    let d = vec![0x18u8, 0x0Du8, 0x71u8, 0xEDu8, 0x70u8, 0x70u8, 0x18u8, 0x0Fu8, 0x71u8, 0xEFu8, 0x70u8, 0x70u8];
    proof {
        assert(d@ =~= seq![0x18u8, 0x0Du8, 0x71u8, 0xEDu8, 0x70u8, 0x70u8, 0x18u8, 0x0Fu8, 0x71u8, 0xEFu8, 0x70u8, 0x70u8]);
    }
    v.push(InitOp::Cmd(InitCmd { cmd: 0x62u8, data: d }));
    let d = vec![0x18u8, 0x11u8, 0x71u8, 0xF1u8, 0x70u8, 0x70u8, 0x18u8, 0x13u8, 0x71u8, 0xF3u8, 0x70u8, 0x70u8];
    proof {
        assert(d@ =~= seq![0x18u8, 0x11u8, 0x71u8, 0xF1u8, 0x70u8, 0x70u8, 0x18u8, 0x13u8, 0x71u8, 0xF3u8, 0x70u8, 0x70u8]);
    }
    v.push(InitOp::Cmd(InitCmd { cmd: 0x63u8, data: d }));
    let d = vec![0x28u8, 0x29u8, 0xF1u8, 0x01u8, 0xF1u8, 0x00u8, 0x07u8];
    proof {
        assert(d@ =~= seq![0x28u8, 0x29u8, 0xF1u8, 0x01u8, 0xF1u8, 0x00u8, 0x07u8]);
    }
    v.push(InitOp::Cmd(InitCmd { cmd: 0x64u8, data: d }));
    let d = vec![0x3Cu8, 0x00u8, 0xCDu8, 0x67u8, 0x45u8, 0x45u8, 0x10u8, 0x00u8, 0x00u8, 0x00u8];
    proof {
        assert(d@ =~= seq![0x3Cu8, 0x00u8, 0xCDu8, 0x67u8, 0x45u8, 0x45u8, 0x10u8, 0x00u8, 0x00u8, 0x00u8]);
    }
    v.push(InitOp::Cmd(InitCmd { cmd: 0x66u8, data: d }));
    let d = vec![0x00u8, 0x3Cu8, 0x00u8, 0x00u8, 0x00u8, 0x01u8, 0x54u8, 0x10u8, 0x32u8, 0x98u8];
    proof {
        assert(d@ =~= seq![0x00u8, 0x3Cu8, 0x00u8, 0x00u8, 0x00u8, 0x01u8, 0x54u8, 0x10u8, 0x32u8, 0x98u8]);
    }
    v.push(InitOp::Cmd(InitCmd { cmd: 0x67u8, data: d }));
    let d = vec![0x10u8, 0x85u8, 0x80u8, 0x00u8, 0x00u8, 0x4Eu8, 0x00u8];
    proof {
        assert(d@ =~= seq![0x10u8, 0x85u8, 0x80u8, 0x00u8, 0x00u8, 0x4Eu8, 0x00u8]);
    }
    v.push(InitOp::Cmd(InitCmd { cmd: 0x74u8, data: d }));
    let d = vec![0x3eu8, 0x07u8];
    proof {
        assert(d@ =~= seq![0x3eu8, 0x07u8]);
    }
    v.push(InitOp::Cmd(InitCmd { cmd: 0x98u8, data: d }));
    v.push(InitOp::Cmd(InitCmd { cmd: TEON, data: Vec::new() }));
    v.push(InitOp::Cmd(InitCmd { cmd: INVON, data: Vec::new() }));
    v.push(InitOp::Cmd(InitCmd { cmd: SLPOUT, data: Vec::new() }));
    v.push(InitOp::Delay(120));
    v.push(InitOp::Cmd(InitCmd { cmd: DISPON, data: Vec::new() }));
    v.push(InitOp::Delay(120));
    proof {
        assert(v@.map_values(|o: InitOp| o.view()) =~= init_table());
    }
    v
}

} // verus!
