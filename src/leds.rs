//! The four status LEDs and the display backlight, each driven by a PWM
//! channel. The library keeps the settings; the board applies them.
use vstd::prelude::*;

verus! {

/// Settings of one PWM slice: the counter wraps at `top`; output A (or B)
/// is high while the counter is below `compare_a` (or `compare_b`).
#[derive(Clone, Copy, Debug, PartialEq, Eq, Structural)]
pub struct PwmConfig {
    pub top: u16,
    pub compare_a: u16,
    pub compare_b: u16,
    pub enable: bool,
}

impl PwmConfig {
    /// A running slice with both outputs at zero duty and the full 16-bit period.
    pub fn new() -> (r: PwmConfig)
        ensures
            r.top == 0xffff && r.compare_a == 0 && r.compare_b == 0 && r.enable,
    {
        PwmConfig { top: 0xffff, compare_a: 0, compare_b: 0, enable: true }
    }
}

/// The PWM output that LED `idx` is wired to: B for the second LED, A for the others.
pub open spec fn led_on_b(idx: int) -> bool {
    idx == 1
}

/// The setting that `set_led(idx, val)` gives LED `idx`: full 16-bit period;
/// off for zero, otherwise on with duty `val` on the LED's output.
pub open spec fn led_config(idx: int, val: u16) -> PwmConfig {
    PwmConfig {
        top: 0xffff,
        compare_a: if val != 0 && !led_on_b(idx) {
            val
        } else {
            0
        },
        compare_b: if val != 0 && led_on_b(idx) {
            val
        } else {
            0
        },
        enable: val != 0,
    }
}

/// Clamps a data-stack value to the 16-bit duty range.
pub open spec fn clamp_duty(v: i32) -> u16 {
    if v < 0 {
        0
    } else if v > 0xffff {
        0xffff
    } else {
        v as u16
    }
}

/// Clamps a data-stack value to the 16-bit duty range.
pub fn clamp_u16(v: i32) -> (r: u16)
    ensures
        r == clamp_duty(v),
{
    if v < 0 {
        0
    } else if v > 0xffff {
        0xffff
    } else {
        v as u16
    }
}

/// Settings of the four LED channels.
pub struct Leds {
    pub led_1: PwmConfig,
    pub led_2: PwmConfig,
    pub led_3: PwmConfig,
    pub led_4: PwmConfig,
}

impl Leds {
    /// The setting of LED `idx` (0 to 3).
    pub open spec fn led(&self, idx: int) -> PwmConfig {
        if idx == 0 {
            self.led_1
        } else if idx == 1 {
            self.led_2
        } else if idx == 2 {
            self.led_3
        } else {
            self.led_4
        }
    }

    /// Every channel runs at zero duty over the full 16-bit period.
    pub open spec fn is_idle(&self) -> bool {
        forall|i: int|
            0 <= i < 4 ==> (#[trigger] self.led(i)).enable && self.led(i).compare_a == 0
                && self.led(i).compare_b == 0 && self.led(i).top == 0xffff
    }

    /// All four channels running at zero duty.
    pub fn new() -> (r: Leds)
        ensures
            r.is_idle(),
    {
        Leds {
            led_1: PwmConfig::new(),
            led_2: PwmConfig::new(),
            led_3: PwmConfig::new(),
            led_4: PwmConfig::new(),
        }
    }

    /// Sets LED `idx` (0 to 3): `val` 0 disables its channel, any other
    /// value enables it with duty `val` out of 65535. Any other index is an
    /// error and changes nothing.
    pub fn set_led(&mut self, idx: u8, val: u16) -> (r: Result<(), ()>)
        ensures
            r.is_ok() <==> idx < 4,
            idx < 4 ==> final(self).led(idx as int) == led_config(idx as int, val),
            forall|i: int|
                0 <= i < 4 && i != idx ==> #[trigger] final(self).led(i) == old(self).led(i),
            idx < 4 ==> (val == 0 <==> !final(self).led(idx as int).enable),
    {
        let mut config = PwmConfig::new();
        config.top = u16::MAX;
        match (idx, val) {
            (0, 0) => {
                config.enable = false;
                self.led_1 = config;
            },
            (1, 0) => {
                config.enable = false;
                self.led_2 = config;
            },
            (2, 0) => {
                config.enable = false;
                self.led_3 = config;
            },
            (3, 0) => {
                config.enable = false;
                self.led_4 = config;
            },
            (0, n) => {
                config.enable = true;
                config.compare_a = n;
                self.led_1 = config;
            },
            (1, n) => {
                config.enable = true;
                config.compare_b = n;
                self.led_2 = config;
            },
            (2, n) => {
                config.enable = true;
                config.compare_a = n;
                self.led_3 = config;
            },
            (3, n) => {
                config.enable = true;
                config.compare_a = n;
                self.led_4 = config;
            },
            _ => return Err(()),
        }
        Ok(())
    }
}

/// The backlight setting for a data-stack value: clamped to the 16-bit
/// range, on output B over the full 16-bit period, enabled.
pub open spec fn backlight_config(v: i32) -> PwmConfig {
    PwmConfig { top: 0xffff, compare_a: 0, compare_b: clamp_duty(v), enable: true }
}

/// The `set_backlight` command: the backlight setting for duty `data`.
pub fn set_backlight(data: i32) -> (r: PwmConfig)
    ensures
        r == backlight_config(data),
{
    let mut config = PwmConfig::new();
    config.top = u16::MAX;
    config.compare_b = clamp_u16(data);
    config.enable = true;
    config
}

} // verus!
