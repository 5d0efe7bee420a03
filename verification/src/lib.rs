//! Driver for chains of single-wire addressable RGB LEDs.
//!
//! A frame is an ordered sequence of 24-bit colors. Each bit is transmitted
//! as a high pulse followed by a low pulse on one output line; the width of
//! the high phase distinguishes a logic 1 from a logic 0. A long low reset
//! pulse after the last bit latches the frame into the LED chain.

pub mod color;
pub mod driver;
pub mod hal;
pub mod instrument;
pub mod spin;
pub mod timing;
pub mod trace;

pub use color::Color;
pub use driver::WS2812;
pub use driver::WS2812Manual;
pub use hal::DelayNs;
pub use hal::OutputPin;
pub use instrument::PinFault;
pub use instrument::RecordingDelay;
pub use instrument::RecordingPin;
pub use spin::SpinDelay;
