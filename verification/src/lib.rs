//! Register protocol core of a driver for an I2C keypad and LED controller:
//! a 4x4 pad of keys, each with an RGB pixel, behind a module/register
//! address space.
//!
//! The crate performs no bus access itself. It computes the exact byte
//! sequences that go onto the wire, decides what to do with what comes back,
//! and leaves the transfers to the host.

pub mod bringup;
pub mod color;
pub mod driver;
pub mod error;
pub mod event;
pub mod key;
pub mod register;
pub mod transaction;

pub use crate::color::Color;
pub use crate::driver::{BringUp, NeoTrellis};
pub use crate::error::Error;
pub use crate::event::{Event, KeypadEvent};
pub use crate::key::Key;
pub use crate::register::{Module, Request, Tier};
pub use crate::transaction::{Reply, Transaction};
