//! Identification of the attached device and of its FPGA clock.
use vstd::prelude::*;

use crate::bus::{MatrixBus, CONF, FPGA_CLOCK, MATRIX_CREATOR, MATRIX_CREATOR_LEDS, MATRIX_VOICE, MATRIX_VOICE_LEDS};
use crate::codec;
use crate::{Device, Error};

verus! {

/// The device named by the identification word `device_name`, with the
/// board version `device_version`; an unknown word is refused with
/// `UnknownDevice`.
pub fn device_info_from_words(device_name: i32, device_version: i32) -> (r: Result<(Device, u32), Error>)
    ensures
        device_name == MATRIX_CREATOR ==> r == Ok::<(Device, u32), Error>((Device::Creator, device_version as u32)),
        device_name == MATRIX_VOICE ==> r == Ok::<(Device, u32), Error>((Device::Voice, device_version as u32)),
        device_name != MATRIX_CREATOR && device_name != MATRIX_VOICE ==> r == Err::<(Device, u32), Error>(Error::UnknownDevice),
{
    let device = if device_name == MATRIX_CREATOR {
        Device::Creator
    } else if device_name == MATRIX_VOICE {
        Device::Voice
    } else {
        return Err(Error::UnknownDevice);
    };
    Ok((device, device_version as u32))
}

/// The type of MATRIX device on `bus` and the version of the board, read
/// from the first two words of the configuration registers (see
/// `device_info_from_words`). A failed bus read is returned.
pub fn get_device_info<B: MatrixBus>(bus: &B) -> (r: Result<(Device, u32), Error>)
    ensures
        r matches Ok((d, _)) ==> d == Device::Creator || d == Device::Voice,
{
    let mut data: Vec<u8> = vec![0u8; 8];
    bus.read(CONF, data.as_mut_slice())?;
    let device_name = codec::read_i32_le(data.as_slice(), 0);
    let device_version = codec::read_i32_le(data.as_slice(), 4);
    device_info_from_words(device_name, device_version)
}

/// `FPGA_CLOCK * value0 / value1`, rounded down.
pub open spec fn fpga_frequency_spec(value0: u16, value1: u16) -> int {
    (FPGA_CLOCK as int * value0 as int) / (value1 as int)
}

/// The FPGA frequency `FPGA_CLOCK * value0 / value1`, rounded down. Refused
/// with `InvalidInput` where `value1` is zero or the frequency does not fit
/// a `u32`.
pub fn fpga_frequency_from_values(value0: u16, value1: u16) -> (r: Result<u32, Error>)
    ensures
        value1 != 0 && fpga_frequency_spec(value0, value1) <= u32::MAX ==> r == Ok::<u32, Error>(
            fpga_frequency_spec(value0, value1) as u32,
        ),
        value1 == 0 || fpga_frequency_spec(value0, value1) > u32::MAX ==> r == Err::<u32, Error>(
            Error::InvalidInput,
        ),
{
    if value1 == 0 {
        return Err(Error::InvalidInput);
    }
    assert(FPGA_CLOCK as int * value0 as int <= FPGA_CLOCK as int * 65535) by (nonlinear_arith)
        requires
            value0 <= 65535,
    ;
    let frequency: u64 = FPGA_CLOCK as u64 * value0 as u64 / value1 as u64;
    if frequency > u32::MAX as u64 {
        return Err(Error::InvalidInput);
    }
    Ok(frequency as u32)
}

/// The frequency of the FPGA on `bus`, from the two 16-bit values after the
/// identification words (see `fpga_frequency_from_values`). A failed bus
/// read is returned.
pub fn get_fpga_frequency<B: MatrixBus>(bus: &B) -> (r: Result<u32, Error>) {
    let mut data: Vec<u8> = vec![0u8; 4];
    bus.read(CONF + 4, data.as_mut_slice())?;
    let value0 = codec::read_u16_le(data.as_slice(), 0);
    let value1 = codec::read_u16_le(data.as_slice(), 2);
    fpga_frequency_from_values(value0, value1)
}

/// The number of LEDs of `device`, where it is known.
pub fn device_leds_of(device: Device) -> (r: Option<u8>)
    ensures
        device == Device::Creator ==> r == Some(MATRIX_CREATOR_LEDS),
        device == Device::Voice ==> r == Some(MATRIX_VOICE_LEDS),
        device == Device::Unknown ==> r is None,
{
    match device {
        Device::Creator => Some(MATRIX_CREATOR_LEDS),
        Device::Voice => Some(MATRIX_VOICE_LEDS),
        Device::Unknown => None,
    }
}

} // verus!
