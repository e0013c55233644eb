//! Error handling.
use vstd::prelude::*;

use crate::esp::EspError;

verus! {

/// Errors reported by this crate.
#[derive(Clone, Copy, Debug, PartialEq, Eq, Structural)]
pub enum Error {
    /// MATRIX device could not be identified.
    UnknownDevice,
    /// Could not initialize the MATRIX bus.
    UnableToStartBus,
    /// MATRIX kernel modules have not been installed.
    KernelModulesNotInstalled,
    /// The GPIO pin selected does not exist.
    InvalidGpioPin,
    /// An integer did not name any variant of an enum.
    EnumFromIntError { value: u32 },
    /// An ESP-IDF call failed.
    EspIdf { error: EspError },
    /// A value given to the device is not supported (an unknown sampling rate,
    /// a delay that does not fit the delay lines).
    InvalidInput,
    /// A resource could not be set up.
    Failed,
    /// A register read or write on the bus failed.
    BusFailure,
}

} // verus!
