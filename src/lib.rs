//! Hardware-abstraction layer for the MATRIX Creator and MATRIX Voice boards.
//!
//! Every peripheral of the board sits behind one FPGA register address space,
//! reached through a [`bus::MatrixBus`]. The centre of the crate is the
//! microphone array pipeline in [`microphone`]: per-channel delay lines and a
//! saturating delay-and-sum beamformer.
use vstd::prelude::*;

pub mod bus;
pub mod codec;
pub mod error;
pub mod esp;
pub mod everloop;
pub mod gpio;
pub mod info;
pub mod microphone;
pub mod sensors;

pub use error::Error;
pub use everloop::{Everloop, Rgbw};
pub use gpio::Gpio;
pub use sensors::Sensors;

verus! {

/// The different types of MATRIX devices.
#[derive(Clone, Copy, Debug, PartialEq, Eq, Structural)]
pub enum Device {
    /// MATRIX Creator.
    Creator,
    /// MATRIX Voice.
    Voice,
    /// A device not identified yet.
    Unknown,
}

} // verus!
