use forth_console::bus::BusOp;
use forth_console::color::{i32_to_rgb, vals_to_rgb, Rgb};
use forth_console::commands::{conv_wheel, set_led, sleep_ms, wheel};
use forth_console::errors::ErrorKind;
use forth_console::flash::{id_from_reply, id_report_bytes, id_request};
use forth_console::host::{DisplayStep, HostState};
use forth_console::leds::{set_backlight, Leds, PwmConfig};
use forth_console::registers::{init_seq, InitCmd, InitOp};
use forth_console::watch::{decimal_bytes, ButtonWatch, DialWatch};

fn on_a(n: u16) -> PwmConfig {
    PwmConfig { top: 0xFFFF, compare_a: n, compare_b: 0, enable: true }
}

fn off() -> PwmConfig {
    PwmConfig { top: 0xFFFF, compare_a: 0, compare_b: 0, enable: false }
}

#[test]
fn set_led_zero_disables_and_nonzero_enables() {
    let mut leds = Leds::new();
    for idx in 0..4u8 {
        assert_eq!(leds.set_led(idx, 1234), Ok(()));
    }
    assert_eq!(leds.led_1, on_a(1234));
    assert_eq!(leds.led_2, PwmConfig { top: 0xFFFF, compare_a: 0, compare_b: 1234, enable: true });
    assert_eq!(leds.led_3, on_a(1234));
    assert_eq!(leds.led_4, on_a(1234));
    assert_eq!(leds.set_led(2, 0), Ok(()));
    assert_eq!(leds.led_3, off());
    assert_eq!(leds.led_1, on_a(1234));
    assert_eq!(leds.set_led(3, 65535), Ok(()));
    assert_eq!(leds.led_4, on_a(65535));
}

#[test]
fn set_led_rejects_unknown_index() {
    let mut leds = Leds::new();
    let before = (leds.led_1, leds.led_2, leds.led_3, leds.led_4);
    assert_eq!(leds.set_led(4, 10), Err(()));
    assert_eq!(leds.set_led(255, 0), Err(()));
    assert_eq!((leds.led_1, leds.led_2, leds.led_3, leds.led_4), before);
}

#[test]
fn set_led_command_clamps_and_reports_bad_index() {
    let mut leds = Leds::new();
    assert_eq!(set_led(&mut leds, 0, -5), Ok(()));
    assert_eq!(leds.led_1, off());
    assert_eq!(set_led(&mut leds, 0, 70000), Ok(()));
    assert_eq!(leds.led_1, on_a(65535));
    assert_eq!(set_led(&mut leds, 4, 100), Err(ErrorKind::BadLiteral));
    assert_eq!(set_led(&mut leds, 260, 100), Err(ErrorKind::BadLiteral));
    assert_eq!(set_led(&mut leds, 257, 9), Err(ErrorKind::BadLiteral));
    assert_eq!(set_led(&mut leds, -256, 9), Err(ErrorKind::BadLiteral));
    assert_eq!(set_led(&mut leds, -1, 9), Err(ErrorKind::BadLiteral));
    assert_eq!(leds.led_2.compare_b, 0);
    assert_eq!(set_led(&mut leds, 1, 9), Ok(()));
    assert_eq!(leds.led_2.compare_b, 9);
}

#[test]
fn backlight_is_clamped() {
    assert_eq!(set_backlight(-1).compare_b, 0);
    assert_eq!(set_backlight(100000).compare_b, 65535);
    let c = set_backlight(32768);
    assert_eq!(c, PwmConfig { top: 0xFFFF, compare_a: 0, compare_b: 32768, enable: true });
}

#[test]
fn buttons_report_only_changes() {
    let mut w = ButtonWatch::new([false; 6]);
    assert_eq!(w.poll([false; 6]), None);
    let pressed = [true, false, false, false, false, true];
    assert_eq!(w.poll(pressed), Some(b"\r\nX____X\r\n".to_vec()));
    assert_eq!(w.poll(pressed), None);
    assert_eq!(w.poll([false; 6]), Some(b"\r\n______\r\n".to_vec()));
    assert_eq!(w.state, [false; 6]);
}

#[test]
fn dial_reports_moves_of_sixteen_or_more() {
    let mut d = DialWatch::new(1000);
    assert_eq!(d.poll(1015), None);
    assert_eq!(d.poll(985), None);
    assert_eq!(d.level, 1000);
    assert_eq!(d.poll(1016), Some(b"\r\n1016\r\n".to_vec()));
    assert_eq!(d.level, 1016);
    assert_eq!(d.poll(1000), Some(b"\r\n1000\r\n".to_vec()));
    let mut z = DialWatch::new(20);
    assert_eq!(z.poll(0), Some(b"\r\n0\r\n".to_vec()));
}

#[test]
fn decimal_digits() {
    assert_eq!(decimal_bytes(0), b"0".to_vec());
    assert_eq!(decimal_bytes(7), b"7".to_vec());
    assert_eq!(decimal_bytes(4095), b"4095".to_vec());
    assert_eq!(decimal_bytes(65535), b"65535".to_vec());
}

#[test]
fn display_init_runs_once() {
    let mut host = HostState::new();
    let first = host.init_disp();
    assert!(host.has_init);
    // 50 register writes of four steps and two delays.
    assert_eq!(first.len(), 50 * 4 + 2);
    assert_eq!(first[0], DisplayStep::Bus(BusOp::Command(0xEF)));
    assert_eq!(first[1], DisplayStep::PauseUs(10));
    assert_eq!(first[2], DisplayStep::Bus(BusOp::Data(Vec::new())));
    assert_eq!(first[5], DisplayStep::PauseUs(10));
    assert_eq!(first[6], DisplayStep::Bus(BusOp::Data(vec![0x14])));
    assert_eq!(first[first.len() - 1], DisplayStep::PauseMs(120));
    assert!(host.init_disp().is_empty());
}

#[test]
fn init_command_plan() {
    let mut host = HostState::new();
    let plan = host.init();
    assert_eq!(plan.setup.len(), 202);
    assert_eq!(plan.settle_ms, 50);
    assert_eq!(plan.backlight.compare_b, 32768);
    assert_eq!(plan.clear[1], BusOp::Data(vec![0, 0, 0, 239]));
    assert_eq!(plan.clear[5], BusOp::Fill { color: 0, len: 240 * 240 * 2 });
    let again = host.init();
    assert!(again.setup.is_empty());
    assert_eq!(again.clear.len(), plan.clear.len());
}

#[test]
fn init_sequence_table() {
    let seq = init_seq();
    assert_eq!(seq.len(), 52);
    assert_eq!(seq[18], InitOp::Cmd(InitCmd { cmd: 0x36, data: vec![0x48] }));
    assert_eq!(seq[49], InitOp::Delay(120));
    assert_eq!(seq[50], InitOp::Cmd(InitCmd { cmd: 0x29, data: vec![] }));
}

#[test]
fn flash_id_transfer_and_report() {
    assert_eq!(id_request(), [0x9F, 0, 0, 0]);
    let id = id_from_reply(&[0xFF, 0xEF, 0x40, 0x18]);
    assert_eq!(id, [0xEF, 0x40, 0x18]);
    assert_eq!(id_report_bytes(&id), b"SPI said: [EF, 40, 18]\r\n".to_vec());
    assert_eq!(id_report_bytes(&[0, 0x0A, 0xFF]), b"SPI said: [00, 0A, FF]\r\n".to_vec());
}

#[test]
fn rgb_words() {
    assert_eq!(vals_to_rgb(1, 2, 3), 0x010203);
    assert_eq!(vals_to_rgb(255, 0, 0), 0xFF0000);
    // Each channel keeps its low byte.
    assert_eq!(vals_to_rgb(256 + 4, -1, 0), 0x04FF00);
}

#[test]
fn color_wheel() {
    assert_eq!(wheel(255), Rgb { r: 255, g: 0, b: 0 });
    assert_eq!(wheel(0), Rgb { r: 255, g: 0, b: 0 });
    assert_eq!(wheel(85), Rgb { r: 0, g: 255, b: 0 });
    assert_eq!(wheel(170), Rgb { r: 0, g: 0, b: 255 });
    assert_eq!(wheel(128), Rgb { r: 0, g: 126, b: 129 });
    assert_eq!(conv_wheel(255), 0xFF0000);
    assert_eq!(conv_wheel(255 + 256), 0xFF0000);
}

#[test]
fn color_word_unpacks() {
    assert_eq!(i32_to_rgb(0x010203), Rgb { r: 1, g: 2, b: 3 });
    assert_eq!(i32_to_rgb(-1), Rgb { r: 255, g: 255, b: 255 });
    assert_eq!(i32_to_rgb(vals_to_rgb(200, 100, 50)), Rgb { r: 200, g: 100, b: 50 });
}

#[test]
fn sleep_durations() {
    assert_eq!(sleep_ms(3, 1000), Ok(3000));
    assert_eq!(sleep_ms(0, 1), Ok(0));
    assert_eq!(sleep_ms(i32::MAX, 1000), Ok(2_147_483_647_000));
    assert_eq!(sleep_ms(-1, 1), Err(ErrorKind::BadLiteral));
}

#[test]
fn host_state_at_power_up() {
    let host = HostState::new();
    assert!(!host.has_init);
    assert!(host.lcd_buf.line3.iter().all(|b| *b == b' '));
    assert!(host.lcd_buf.line0.iter().all(|b| *b == b' '));
    let idle = PwmConfig { top: 0xFFFF, compare_a: 0, compare_b: 0, enable: true };
    assert_eq!((host.leds.led_1, host.leds.led_4), (idle, idle));
}
