//! Driver for the GC9A01 round TFT controller.
//!
//! The library turns drawing operations into the exact sequence of wire
//! steps the controller expects: opcode bytes on the command channel,
//! parameter bytes and pixel words on the data channel, and settle delays.
//! It never touches a bus itself; whoever owns the transport performs the
//! returned [`Step`](crate::wire::Step)s in order and stops at the first
//! failure.

pub mod brightness;
pub mod command;
pub mod display;
pub mod driver;
pub mod mode;
pub mod rotation;
pub mod wire;

pub use brightness::Brightness;
pub use driver::Gc9a01;
pub use rotation::DisplayRotation;
