//! The register bus to the FPGA, and its address map.
use vstd::prelude::*;

use crate::codec;
use crate::codec::LeBytes;
use crate::{Device, Error};

verus! {

/// FPGA wishbone base address of the configuration registers.
pub const CONF: u16 = 0x0000;
/// FPGA wishbone base address of the UART.
pub const UART: u16 = 0x1000;
/// FPGA wishbone base address of the microphone array.
pub const MICROPHONE_ARRAY: u16 = 0x2000;
/// FPGA wishbone base address of the LED ring.
pub const EVERLOOP: u16 = 0x3000;
/// FPGA wishbone base address of the GPIO banks.
pub const GPIO: u16 = 0x4000;
/// FPGA wishbone base address of the sensor microcontroller.
pub const MCU: u16 = 0x5000;

/// Number of LEDs on a MATRIX Creator.
pub const MATRIX_CREATOR_LEDS: u8 = 35;
/// Number of LEDs on a MATRIX Voice.
pub const MATRIX_VOICE_LEDS: u8 = 18;
/// Identification word of a MATRIX Creator.
pub const MATRIX_CREATOR: i32 = 0x05C344E8;
/// Identification word of a MATRIX Voice.
pub const MATRIX_VOICE: i32 = 0x6032BAD2;
/// Physical oscillator of the FPGA, in Hz.
pub const FPGA_CLOCK: u32 = 50000000;

/// The number of 32-bit words of a kernel ioctl request whose payload is
/// `byte_length` bytes: two header words, then the payload rounded up to
/// whole words.
pub open spec fn ioctl_words(byte_length: nat) -> nat {
    2 + (byte_length + 3) / 4
}

/// The kernel ioctl request for register `address` with room for
/// `length` payload bytes, of which `payload` is the start: the address
/// and the length as little-endian words, then the payload, then zeros up
/// to a whole number of words.
pub open spec fn ioctl_request_spec(address: u16, length: nat, payload: Seq<u8>) -> Seq<u8> {
    codec::u32_bytes(address as u32) + codec::u32_bytes(length as u32) + payload + Seq::new(
        (4 * ioctl_words(length) - 8 - payload.len()) as nat,
        |i: int| 0u8,
    )
}

/// The number of `i32` words the kernel modules need for a request whose
/// payload is `buffer`: the address, the byte length, and the payload
/// rounded up to whole words.
pub fn ioctl_buffer_i32(buffer: &[u8]) -> (r: usize)
    ensures
        r == ioctl_words(buffer@.len()),
{
    let len = buffer.len();
    let rest: usize = if len % 4 != 0 {
        1
    } else {
        0
    };
    2 + len / 4 + rest
}

/// The request the MATRIX kernel modules take through ioctl for register
/// `address`: to write, `payload` holds the bytes and `length` is their
/// number; to read, `payload` is empty and `length` is the number of bytes
/// wanted, which the kernel puts after the two header words.
pub fn ioctl_request(address: u16, length: usize, payload: &[u8]) -> (r: Vec<u8>)
    requires
        length <= i32::MAX,
        payload@.len() <= length,
    ensures
        r@ == ioctl_request_spec(address, length as nat, payload@),
        r@.len() == 4 * ioctl_words(length as nat),
{
    let words: usize = 2 + length / 4 + if length % 4 != 0 {
        1
    } else {
        0
    };
    let mut r = (address as u32).le_bytes();
    let mut len_bytes = (length as u32).le_bytes();
    r.append(&mut len_bytes);
    let mut i: usize = 0;
    while i < payload.len()
        invariant
            i <= payload@.len(),
            r@ == codec::u32_bytes(address as u32) + codec::u32_bytes(length as u32)
                + payload@.subrange(0, i as int),
        decreases payload@.len() - i,
    {
        r.push(payload[i]);
        proof {
            assert(payload@.subrange(0, i + 1) =~= payload@.subrange(0, i as int).push(payload@[i as int]));
        }
        i = i + 1;
    }
    let ghost head = r@;
    while r.len() < 4 * words
        invariant
            words == ioctl_words(length as nat),
            words <= 2 + i32::MAX / 4 + 1,
            8 + payload@.len() <= r@.len() <= 4 * words,
            r@.subrange(0, 8 + payload@.len() as int) == head,
            head.len() == 8 + payload@.len(),
            forall|j: int| 8 + payload@.len() <= j < r@.len() ==> r@[j] == 0u8,
        decreases 4 * words - r@.len(),
    {
        r.push(0u8);
    }
    proof {
        assert(payload@.subrange(0, payload@.len() as int) =~= payload@);
        assert(r@ =~= ioctl_request_spec(address, length as nat, payload@));
    }
    r
}

/// Byte-oriented access to the FPGA register space.
///
/// Implemented by each transport (kernel modules, SPI). A transport owns its
/// own serialization: the methods take `&self`. A transfer that fails is
/// reported as an error, which the library hands on to its caller unchanged.
pub trait MatrixBus {
    /// Writes `write_buffer` to the register at `address`.
    fn write(&self, address: u16, write_buffer: &[u8]) -> Result<(), Error>;

    /// Fills `read_buffer` with the bytes of the register at `address`.
    fn read(&self, address: u16, read_buffer: &mut [u8]) -> (r: Result<(), Error>)
        ensures
            final(read_buffer)@.len() == old(read_buffer)@.len(),
    ;

    /// Closes the connection to the bus, where the transport has one.
    fn close(&self);

    /// The device this bus is attached to.
    fn device_name(&self) -> Device;

    /// The board's version.
    fn device_version(&self) -> u32;

    /// The number of LEDs of the attached device.
    fn device_leds(&self) -> u8;

    /// The FPGA's clock frequency, in Hz.
    fn fpga_frequency(&self) -> u32;
}

} // verus!
