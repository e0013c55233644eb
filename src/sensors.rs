//! The environmental sensors of the MATRIX Creator, reached through its
//! microcontroller's memory.
use vstd::prelude::*;

use crate::bus::{MatrixBus, MCU};
use crate::codec;
use crate::{Device, Error};

verus! {

/// Offset of the UV reading in the microcontroller's memory.
pub const UV_OFFSET: u16 = 0x00;
/// Offset of the pressure readings in the microcontroller's memory.
pub const PRESSURE_OFFSET: u16 = 0x04;
/// Offset of the humidity readings in the microcontroller's memory.
pub const HUMIDITY_OFFSET: u16 = 0x10;
/// Offset of the IMU readings in the microcontroller's memory.
pub const IMU_OFFSET: u16 = 0x30;

/// Number of bytes of the UV data.
pub const UV_BYTES: i32 = 4;
/// Number of bytes of the pressure data.
pub const PRESSURE_BYTES: i32 = 12;
/// Number of bytes of the humidity data.
pub const HUMIDITY_BYTES: i32 = 8;
/// Number of bytes of the IMU data.
pub const IMU_BYTES: i32 = 60;

/// The number of 4-byte values in `sensor_bytes` bytes of sensor data.
pub fn get_buffer_length(sensor_bytes: i32) -> (r: usize)
    requires
        sensor_bytes >= 0,
    ensures
        r == sensor_bytes / 4,
{
    (sensor_bytes / 4) as usize
}

/// The word `i` of the little-endian words in `b`.
pub open spec fn word_at(b: Seq<u8>, i: int) -> i32 {
    codec::i32_le(b, 4 * i)
}

/// Reads the main sensors of a MATRIX Creator.
pub struct Sensors<'a, B: MatrixBus> {
    pub bus: &'a B,
}

impl<'a, B: MatrixBus> Sensors<'a, B> {
    /// The sensors on `bus`. Only the MATRIX Creator has them: on another
    /// device `UnknownDevice` is returned.
    pub fn new(bus: &'a B) -> (r: Result<Sensors<'a, B>, Error>)
        ensures
            r matches Ok(s) ==> s.bus == bus,
            r is Err ==> r matches Err(Error::UnknownDevice),
    {
        if bus.device_name() != Device::Creator {
            return Err(Error::UnknownDevice);
        }
        Ok(Sensors { bus })
    }

    /// The raw 32-bit values of a sensor: `sensor_bytes / 4` little-endian
    /// words read from the microcontroller memory at `mcu_offset` (a byte
    /// offset; the memory is addressed in 16-bit words). A failed bus read
    /// is returned.
    pub fn read_values(&self, mcu_offset: u16, sensor_bytes: i32) -> (r: Result<Vec<i32>, Error>)
        requires
            0 <= sensor_bytes <= 4096,
            mcu_offset <= 0x1000,
        ensures
            r matches Ok(v) ==> v@.len() == sensor_bytes / 4,
    {
        let n = get_buffer_length(sensor_bytes);
        let address: u16 = MCU + mcu_offset / 2;
        let mut data: Vec<u8> = vec![0u8; 4 * n];
        self.bus.read(address, data.as_mut_slice())?;
        let mut r: Vec<i32> = Vec::with_capacity(n);
        let mut i: usize = 0;
        while i < n
            invariant
                i <= n,
                data@.len() == 4 * n,
                n <= 1024,
                r@.len() == i,
                forall|k: int| 0 <= k < i ==> #[trigger] r@[k] == word_at(data@, k),
            decreases n - i,
        {
            r.push(codec::read_i32_le(data.as_slice(), 4 * i));
            i = i + 1;
        }
        Ok(r)
    }
}

} // verus!
