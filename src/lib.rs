//! Core logic of a serial scripting console for a small board with a round
//! LCD, four PWM LEDs, six buttons and an analog dial.
//!
//! - `editor`, `line_buf`, `errors`: the line editor that turns typed bytes
//!   into echo and completed lines, and the framing of each line's outcome.
//! - `bus`, `raster`, `color`, `font`, `text_row`, `demo`, `lcd`: drawing,
//!   expressed as the list of controller writes that produce it.
//! - `registers`, `host`: the panel's power-up sequence and the state the
//!   console keeps for the board, with the once-only display bring-up.
//! - `leds`, `commands`, `flash`: the native commands' arithmetic.
//! - `watch`: change detection behind the button and dial tasks.
//! - `bytes`: small helpers for building byte vectors.

pub mod bytes;
pub mod line_buf;
pub mod editor;
pub mod errors;
pub mod bus;
pub mod raster;
pub mod color;
pub mod font;
pub mod lcd;
pub mod text_row;
pub mod demo;
pub mod registers;
pub mod host;
pub mod leds;
pub mod commands;
pub mod flash;
pub mod watch;
