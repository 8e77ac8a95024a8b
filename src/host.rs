//! State that the console keeps for the board between commands, and the
//! one-time bring-up of the display.
use vstd::prelude::*;

use crate::bus::{writes, BusOp, BusWrite};
use crate::lcd::LcdBuf;
use crate::leds::{backlight_config, set_backlight, Leds, PwmConfig};
use crate::raster::{fill_rect, rect_writes};
use crate::registers::{init_seq, init_table, InitEntry, InitOp};

verus! {

/// Pause after each byte group of the bring-up sequence, in microseconds.
pub const INIT_SETTLE_US: u32 = 10;

/// One step of talking to the display: a bus write or a pause.
#[derive(Debug, PartialEq, Eq)]
pub enum DisplayStep {
    Bus(BusOp),
    PauseUs(u32),
    PauseMs(u32),
}

/// A display step seen as values.
pub enum StepView {
    Bus(BusWrite),
    PauseUs(u32),
    PauseMs(u32),
}

impl DisplayStep {
    pub open spec fn view(&self) -> StepView {
        match self {
            DisplayStep::Bus(op) => StepView::Bus(op.view()),
            DisplayStep::PauseUs(us) => StepView::PauseUs(*us),
            DisplayStep::PauseMs(ms) => StepView::PauseMs(*ms),
        }
    }
}

/// Display steps seen as values.
pub open spec fn step_views(steps: Seq<DisplayStep>) -> Seq<StepView> {
    steps.map_values(|s: DisplayStep| s.view())
}

/// The steps that carry out one entry of the bring-up sequence: a register
/// write is the command, a short pause, the parameters, a short pause; a
/// delay is a pause of that many milliseconds.
pub open spec fn entry_steps(e: InitEntry) -> Seq<StepView> {
    match e {
        InitEntry::Cmd(c, d) => seq![
            StepView::Bus(BusWrite::Command(c)),
            StepView::PauseUs(10),
            StepView::Bus(BusWrite::Data(d)),
            StepView::PauseUs(10),
        ],
        InitEntry::Delay(ms) => seq![StepView::PauseMs(ms)],
    }
}

/// The steps that carry out a bring-up sequence, entry after entry.
pub open spec fn init_steps(entries: Seq<InitEntry>) -> Seq<StepView>
    decreases entries.len(),
{
    if entries.len() == 0 {
        Seq::empty()
    } else {
        init_steps(entries.drop_last()) + entry_steps(entries.last())
    }
}

/// What the `init` command does to the display.
pub struct InitPlan {
    /// The bring-up sequence; empty once it has run.
    pub setup: Vec<DisplayStep>,
    /// Paints the whole panel black.
    pub clear: Vec<BusOp>,
    /// Pause before the backlight comes on, in milliseconds.
    pub settle_ms: u32,
    /// The backlight setting to apply last.
    pub backlight: PwmConfig,
}

/// What the console keeps for the board: whether the display has been
/// brought up, the text rows and the LED settings.
pub struct HostState {
    pub has_init: bool,
    pub lcd_buf: LcdBuf,
    pub leds: Leds,
}

impl HostState {
    /// State at power-up: display not brought up yet, text rows blank, LEDs
    /// at zero duty.
    pub fn new() -> (r: HostState)
        ensures
            !r.has_init,
            r.lcd_buf.is_blank(),
            r.leds.is_idle(),
    {
        HostState { has_init: false, lcd_buf: LcdBuf::new(), leds: Leds::new() }
    }

    /// The display bring-up: the full sequence the first time, nothing on
    /// every later call, so that it runs at most once.
    pub fn init_disp(&mut self) -> (r: Vec<DisplayStep>)
        ensures
            final(self).has_init,
            old(self).has_init ==> r@.len() == 0,
            !old(self).has_init ==> step_views(r@) == init_steps(init_table()),
            final(self).lcd_buf == old(self).lcd_buf,
            final(self).leds == old(self).leds,
    {
        let mut steps: Vec<DisplayStep> = Vec::new();
        if self.has_init {
            return steps;
        }
        self.has_init = true;
        let table = init_seq();
        let ghost entries = table@.map_values(|o: InitOp| o.view());
        let mut i: usize = 0;
        proof {
            assert(entries.take(0) =~= Seq::<InitEntry>::empty());
            assert(step_views(steps@) =~= Seq::<StepView>::empty());
        }
        while i < table.len()
            invariant
                i <= table@.len(),
                entries == table@.map_values(|o: InitOp| o.view()),
                step_views(steps@) == init_steps(entries.take(i as int)),
            decreases table@.len() - i,
        {
            let ghost before = steps@;
            match &table[i] {
                InitOp::Cmd(c) => {
                    steps.push(DisplayStep::Bus(BusOp::Command(c.cmd)));
                    steps.push(DisplayStep::PauseUs(INIT_SETTLE_US));
                    steps.push(DisplayStep::Bus(BusOp::Data(c.data.clone())));
                    steps.push(DisplayStep::PauseUs(INIT_SETTLE_US));
                },
                InitOp::Delay(ms) => {
                    steps.push(DisplayStep::PauseMs(*ms));
                },
            }
            proof {
                assert(entries.take(i + 1).drop_last() =~= entries.take(i as int));
                assert(entries.take(i + 1).last() == entries[i as int]);
                assert(step_views(steps@) =~= step_views(before) + entry_steps(entries[i as int]));
            }
            i = i + 1;
        }
        proof {
            assert(entries.take(i as int) =~= entries);
        }
        steps
    }

    /// The `init` command: the display bring-up (only the first time), then
    /// the whole 240 by 240 panel painted black, a 50 ms pause, and the
    /// backlight at half duty (32768).
    pub fn init(&mut self) -> (r: InitPlan)
        ensures
            final(self).has_init,
            old(self).has_init ==> r.setup@.len() == 0,
            !old(self).has_init ==> step_views(r.setup@) == init_steps(init_table()),
            writes(r.clear@) == rect_writes(0, 240, 0, 240, 0),
            r.settle_ms == 50,
            r.backlight == backlight_config(32768),
            final(self).lcd_buf == old(self).lcd_buf,
            final(self).leds == old(self).leds,
    {
        let setup = self.init_disp();
        let clear = fill_rect(0, 240, 0, 240, 0);
        InitPlan { setup, clear, settle_ms: 50, backlight: set_backlight(32768) }
    }
}

} // verus!
