//! Pieces of the ESP32 transport that are plain values: the failure codes of
//! ESP-IDF and the SPI command header.
use vstd::prelude::*;

use crate::Error;

verus! {

/// ESP-IDF failure code: out of memory.
pub const ESP_ERR_NO_MEM: u32 = 0x101;
/// ESP-IDF failure code: invalid argument.
pub const ESP_ERR_INVALID_ARG: u32 = 0x102;
/// ESP-IDF failure code: invalid state.
pub const ESP_ERR_INVALID_STATE: u32 = 0x103;
/// ESP-IDF failure code: invalid size.
pub const ESP_ERR_INVALID_SIZE: u32 = 0x104;
/// ESP-IDF failure code: resource not found.
pub const ESP_ERR_NOT_FOUND: u32 = 0x105;
/// ESP-IDF failure code: operation or feature not supported.
pub const ESP_ERR_NOT_SUPPORTED: u32 = 0x106;
/// ESP-IDF failure code: operation timed out.
pub const ESP_ERR_TIMEOUT: u32 = 0x107;
/// ESP-IDF failure code: received response was invalid.
pub const ESP_ERR_INVALID_RESPONSE: u32 = 0x108;
/// ESP-IDF failure code: CRC or checksum was invalid.
pub const ESP_ERR_INVALID_CRC: u32 = 0x109;
/// ESP-IDF failure code: version was invalid.
pub const ESP_ERR_INVALID_VERSION: u32 = 0x10A;
/// ESP-IDF failure code: MAC address was invalid.
pub const ESP_ERR_INVALID_MAC: u32 = 0x10B;
/// ESP-IDF failure code: first of the Wi-Fi codes.
pub const ESP_ERR_WIFI_BASE: u32 = 0x3000;
/// ESP-IDF failure code: first of the mesh codes.
pub const ESP_ERR_MESH_BASE: u32 = 0x4000;

/// Failure values reported by ESP-IDF native functions.
#[derive(Clone, Copy, Debug, PartialEq, Eq, Structural)]
pub enum EspError {
    NoMem,
    InvalidArg,
    InvalidState,
    InvalidSize,
    NotFound,
    NotSupported,
    Timeout,
    InvalidResponse,
    InvalidCrc,
    InvalidVersion,
    InvalidMac,
    WifiBase,
    MeshBase,
}

/// An integer that names no `EspError`.
#[derive(Clone, Copy, Debug, PartialEq, Eq, Structural)]
pub struct EnumFromIntError(pub u32);

/// The `EspError` that the code `code` stands for, if any.
pub open spec fn esp_error_of(code: u32) -> Option<EspError> {
    if code == ESP_ERR_NO_MEM {
        Some(EspError::NoMem)
    } else if code == ESP_ERR_INVALID_ARG {
        Some(EspError::InvalidArg)
    } else if code == ESP_ERR_INVALID_STATE {
        Some(EspError::InvalidState)
    } else if code == ESP_ERR_INVALID_SIZE {
        Some(EspError::InvalidSize)
    } else if code == ESP_ERR_NOT_FOUND {
        Some(EspError::NotFound)
    } else if code == ESP_ERR_NOT_SUPPORTED {
        Some(EspError::NotSupported)
    } else if code == ESP_ERR_TIMEOUT {
        Some(EspError::Timeout)
    } else if code == ESP_ERR_INVALID_RESPONSE {
        Some(EspError::InvalidResponse)
    } else if code == ESP_ERR_INVALID_CRC {
        Some(EspError::InvalidCrc)
    } else if code == ESP_ERR_INVALID_VERSION {
        Some(EspError::InvalidVersion)
    } else if code == ESP_ERR_INVALID_MAC {
        Some(EspError::InvalidMac)
    } else if code == ESP_ERR_WIFI_BASE {
        Some(EspError::WifiBase)
    } else if code == ESP_ERR_MESH_BASE {
        Some(EspError::MeshBase)
    } else {
        None
    }
}

impl EspError {
    /// The failure that the value `value`, returned by an ESP-IDF function,
    /// stands for; a value that stands for none is handed back.
    pub fn try_from(value: i32) -> (r: Result<EspError, EnumFromIntError>)
        ensures
            esp_error_of(value as u32) matches Some(e) ==> r == Ok::<EspError, EnumFromIntError>(e),
            esp_error_of(value as u32) is None ==> r == Err::<EspError, EnumFromIntError>(
                EnumFromIntError(value as u32),
            ),
    {
        let code = value as u32;
        if code == ESP_ERR_NO_MEM {
            Ok(EspError::NoMem)
        } else if code == ESP_ERR_INVALID_ARG {
            Ok(EspError::InvalidArg)
        } else if code == ESP_ERR_INVALID_STATE {
            Ok(EspError::InvalidState)
        } else if code == ESP_ERR_INVALID_SIZE {
            Ok(EspError::InvalidSize)
        } else if code == ESP_ERR_NOT_FOUND {
            Ok(EspError::NotFound)
        } else if code == ESP_ERR_NOT_SUPPORTED {
            Ok(EspError::NotSupported)
        } else if code == ESP_ERR_TIMEOUT {
            Ok(EspError::Timeout)
        } else if code == ESP_ERR_INVALID_RESPONSE {
            Ok(EspError::InvalidResponse)
        } else if code == ESP_ERR_INVALID_CRC {
            Ok(EspError::InvalidCrc)
        } else if code == ESP_ERR_INVALID_VERSION {
            Ok(EspError::InvalidVersion)
        } else if code == ESP_ERR_INVALID_MAC {
            Ok(EspError::InvalidMac)
        } else if code == ESP_ERR_WIFI_BASE {
            Ok(EspError::WifiBase)
        } else if code == ESP_ERR_MESH_BASE {
            Ok(EspError::MeshBase)
        } else {
            Err(EnumFromIntError(code))
        }
    }
}

/// Converts the `i32` returned by an ESP-IDF native function into a
/// `Result`: zero is success, a known failure code an `EspIdf` error, any
/// other value an `EnumFromIntError`.
pub fn esp_int_into_result(value: i32) -> (r: Result<(), Error>)
    ensures
        value == 0 ==> r is Ok,
        value != 0 ==> (esp_error_of(value as u32) matches Some(e) ==> r == Err::<(), Error>(
            Error::EspIdf { error: e },
        )),
        value != 0 ==> (esp_error_of(value as u32) is None ==> r == Err::<(), Error>(
            Error::EnumFromIntError { value: value as u32 },
        )),
{
    if value == 0 {
        Ok(())
    } else {
        match EspError::try_from(value) {
            Ok(error) => Err(Error::EspIdf { error }),
            Err(_) => Err(Error::EnumFromIntError { value: value as u32 }),
        }
    }
}

/// The SPI command word for register `address`: the register number in
/// bits 15 to 1, the read flag in bit 0.
pub open spec fn spi_command(address: u16, readnwrite: bool) -> int {
    (address % 32768) * 2 + if readnwrite {
        1int
    } else {
        0int
    }
}

/// The two bytes that open an SPI transfer to `address`, least significant
/// first: the register number shifted left by one, with the read flag in
/// the low bit.
pub fn spi_address_bytes(address: u16, readnwrite: bool) -> (r: [u8; 2])
    ensures
        r[0] == spi_command(address, readnwrite) % 256,
        r[1] == spi_command(address, readnwrite) / 256,
{
    let low: u16 = if readnwrite {
        1
    } else {
        0
    };
    let word: u16 = ((address % 32768) * 2) + low;
    assert(word == spi_command(address, readnwrite));
    let r = [(word % 256) as u8, (word / 256) as u8];
    r
}

/// Bytes of the SPI transfer buffer, command header included.
pub const SPI_BUFFER_SIZE: usize = 4096;

/// The bytes sent in an SPI transfer to register `address`: the command
/// header, then `payload` (the bytes to write, or as many filler bytes as are
/// to be read back after the header).
pub fn spi_frame(address: u16, readnwrite: bool, payload: &[u8]) -> (r: Vec<u8>)
    requires
        payload@.len() + 2 <= SPI_BUFFER_SIZE,
    ensures
        r@.len() == payload@.len() + 2,
        r@[0] == spi_command(address, readnwrite) % 256,
        r@[1] == spi_command(address, readnwrite) / 256,
        r@.subrange(2, r@.len() as int) == payload@,
{
    let header = spi_address_bytes(address, readnwrite);
    let mut r: Vec<u8> = Vec::with_capacity(payload.len() + 2);
    r.push(header[0]);
    r.push(header[1]);
    let mut i: usize = 0;
    while i < payload.len()
        invariant
            i <= payload@.len(),
            r@.len() == i + 2,
            r@[0] == header[0],
            r@[1] == header[1],
            r@.subrange(2, i + 2) == payload@.subrange(0, i as int),
        decreases payload@.len() - i,
    {
        r.push(payload[i]);
        proof {
            assert(r@.subrange(2, i + 3) =~= payload@.subrange(0, i + 1));
        }
        i = i + 1;
    }
    proof {
        assert(payload@.subrange(0, payload@.len() as int) =~= payload@);
    }
    r
}

} // verus!
