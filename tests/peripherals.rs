use matrix_rhal::bus::{ioctl_buffer_i32, ioctl_request, MatrixBus, CONF, EVERLOOP, GPIO, MATRIX_CREATOR, MATRIX_VOICE, MCU};
use matrix_rhal::esp::{esp_int_into_result, spi_address_bytes, spi_frame, EnumFromIntError, EspError};
use matrix_rhal::everloop::led_frame;
use matrix_rhal::gpio::config::set_pin_config;
use matrix_rhal::gpio::{pin_state, pin_states, Bank, Function, Mode, State};
use matrix_rhal::info::{
    device_info_from_words, device_leds_of, fpga_frequency_from_values, get_device_info,
    get_fpga_frequency,
};
use matrix_rhal::sensors::{get_buffer_length, PRESSURE_BYTES, PRESSURE_OFFSET};
use matrix_rhal::{Device, Error, Everloop, Gpio, Rgbw, Sensors};
use std::cell::{Cell, RefCell};
use std::collections::HashMap;

/// A bus that keeps what is written to each register and hands it back on a
/// read.
struct MockBus {
    device: Device,
    leds: u8,
    registers: RefCell<HashMap<u16, Vec<u8>>>,
    writes: RefCell<Vec<(u16, Vec<u8>)>>,
    failing: Cell<bool>,
}

impl MockBus {
    fn new(device: Device, leds: u8) -> MockBus {
        MockBus {
            device,
            leds,
            registers: RefCell::new(HashMap::new()),
            writes: RefCell::new(Vec::new()),
            failing: Cell::new(false),
        }
    }

    fn set(&self, address: u16, bytes: Vec<u8>) {
        self.registers.borrow_mut().insert(address, bytes);
    }
}

impl MatrixBus for MockBus {
    fn write(&self, address: u16, write_buffer: &[u8]) -> Result<(), Error> {
        if self.failing.get() {
            return Err(Error::BusFailure);
        }
        self.writes.borrow_mut().push((address, write_buffer.to_vec()));
        self.registers.borrow_mut().insert(address, write_buffer.to_vec());
        Ok(())
    }

    fn read(&self, address: u16, read_buffer: &mut [u8]) -> Result<(), Error> {
        if self.failing.get() {
            return Err(Error::BusFailure);
        }
        let data = self.registers.borrow().get(&address).cloned().unwrap_or_default();
        for (i, b) in read_buffer.iter_mut().enumerate() {
            *b = data.get(i).copied().unwrap_or(0);
        }
        Ok(())
    }

    fn close(&self) {}

    fn device_name(&self) -> Device {
        self.device
    }

    fn device_version(&self) -> u32 {
        0
    }

    fn device_leds(&self) -> u8 {
        self.leds
    }

    fn fpga_frequency(&self) -> u32 {
        150_000_000
    }
}

#[test]
fn pin_config_sets_one_bit() {
    // pin 15 to 0 in 0b1000_0000_0000_0011
    assert_eq!(set_pin_config(15, 0, &32771), 3);
    assert_eq!(set_pin_config(2, 1, &3), 7);
    assert_eq!(set_pin_config(0, 0, &0xFFFF), 0xFFFE);
}

#[test]
fn gpio_set_config_keeps_maps_and_writes_registers() {
    let bus = MockBus::new(Device::Creator, 35);
    let mut gpio = Gpio::new(&bus);
    gpio.set_config(1, Mode::Output).unwrap();
    gpio.set_config(3, Mode::Output).unwrap();
    gpio.set_config(1, State::On).unwrap();
    gpio.set_config(2, Function::Pwm).unwrap();
    assert_eq!(gpio.mode_pin_map(), 0b1010);
    assert_eq!(gpio.state_pin_map(), 0b10);
    assert_eq!(gpio.function_pin_map(), 0b100);
    let writes = bus.writes.borrow();
    assert_eq!(writes[0], (GPIO, vec![0b10, 0]));
    assert_eq!(writes[1], (GPIO, vec![0b1010, 0]));
    assert_eq!(writes[2], (GPIO + 1, vec![0b10, 0]));
    assert_eq!(writes[3], (GPIO + 2, vec![0b100, 0]));
}

#[test]
fn gpio_refuses_pin_sixteen() {
    let bus = MockBus::new(Device::Creator, 35);
    let mut gpio = Gpio::new(&bus);
    assert_eq!(gpio.set_config(16, Mode::Output), Err(Error::InvalidGpioPin));
    assert_eq!(gpio.mode_pin_map(), 0);
    assert!(bus.writes.borrow().is_empty());
}

#[test]
fn gpio_set_configs_applies_each_pin() {
    let bus = MockBus::new(Device::Creator, 35);
    let mut gpio = Gpio::new(&bus);
    gpio.set_configs(&[0, 1, 15], Function::Pwm).unwrap();
    assert_eq!(gpio.function_pin_map(), 0x8003);
    assert_eq!(gpio.set_configs(&[4, 20, 5], State::On), Err(Error::InvalidGpioPin));
    assert_eq!(gpio.state_pin_map(), 0x10);
}

#[test]
fn gpio_prescaler_per_bank() {
    let bus = MockBus::new(Device::Creator, 35);
    let mut gpio = Gpio::new(&bus);
    gpio.set_prescaler(1, 5).unwrap();
    gpio.set_prescaler(3, 0xA).unwrap();
    assert_eq!(gpio.prescaler_bank_map(), 0xA050);
    gpio.set_prescaler(1, 2).unwrap();
    assert_eq!(gpio.prescaler_bank_map(), 0xA020);
    assert_eq!(bus.writes.borrow().last().unwrap(), &(GPIO + 3, vec![0x20, 0xA0]));
    assert_eq!(gpio.set_prescaler(4, 1), Err(Error::InvalidInput));
}

#[test]
fn gpio_reads_pin_states() {
    let bus = MockBus::new(Device::Creator, 35);
    bus.set(GPIO + 1, vec![0b0000_0101, 0b1000_0000]);
    let gpio = Gpio::new(&bus);
    assert!(gpio.get_state(0).unwrap());
    assert!(!gpio.get_state(1).unwrap());
    assert!(gpio.get_state(2).unwrap());
    assert!(gpio.get_state(15).unwrap());
    let states = gpio.get_states().unwrap();
    let on: Vec<usize> = (0..16).filter(|&i| states[i]).collect();
    assert_eq!(on, vec![0, 2, 15]);
}

#[test]
fn pin_state_of_word() {
    assert!(pin_state(0x8000, 15));
    assert!(!pin_state(0x8000, 14));
    let states = pin_states(0x0003);
    assert!(states[0] && states[1] && !states[2]);
}

#[test]
fn banks_sit_six_registers_apart() {
    let bus = MockBus::new(Device::Creator, 35);
    let banks = Bank::new_set(&bus);
    let offsets: Vec<u16> = banks.iter().map(|b| b.memory_offset).collect();
    assert_eq!(offsets, vec![GPIO + 4, GPIO + 10, GPIO + 16, GPIO + 22]);
    banks[1].set_period(1000).unwrap();
    banks[1].set_duty(2, 300).unwrap();
    let writes = bus.writes.borrow();
    assert_eq!(writes[0], (GPIO + 11, vec![0xE8, 0x03]));
    assert_eq!(writes[1], (GPIO + 14, vec![0x2C, 0x01]));
    assert_eq!(Bank::new(&bus).memory_offset, 0);
}

#[test]
fn rgbw_colours() {
    assert_eq!(Rgbw::new(1, 2, 3, 4).as_bytes(), 0x01020304);
    assert_eq!(Rgbw::white().as_bytes(), -1);
    assert_eq!(Rgbw::black().as_bytes(), 0);
    assert_eq!(Rgbw::new(0x80, 0, 0, 0).as_bytes(), i32::MIN);
    assert_eq!(Rgbw::new(9, 8, 7, 6).to_bytes(), vec![9, 8, 7, 6]);
}

#[test]
fn led_frame_fills_with_black() {
    let frame = led_frame(&[Rgbw::new(1, 2, 3, 4)], 3);
    assert_eq!(frame, vec![1, 2, 3, 4, 0, 0, 0, 0, 0, 0, 0, 0]);
}

#[test]
fn everloop_writes_whole_ring() {
    let bus = MockBus::new(Device::Voice, 18);
    let everloop = Everloop::new(&bus);
    everloop.set(&[Rgbw::new(0, 0, 255, 0); 15]).unwrap();
    let (address, bytes) = bus.writes.borrow().last().unwrap().clone();
    assert_eq!(address, EVERLOOP);
    assert_eq!(bytes.len(), 72);
    assert_eq!(&bytes[56..64], &[0, 0, 255, 0, 0, 0, 0, 0]);
    everloop.set_all(Rgbw::white()).unwrap();
    let (_, bytes) = bus.writes.borrow().last().unwrap().clone();
    assert!(bytes.len() == 72 && bytes.iter().all(|&b| b == 255));
    assert_eq!(everloop.set(&[Rgbw::black(); 19]), Err(Error::InvalidInput));
}

#[test]
fn device_identification() {
    assert_eq!(device_info_from_words(MATRIX_CREATOR, 7), Ok((Device::Creator, 7)));
    assert_eq!(device_info_from_words(MATRIX_VOICE, -1), Ok((Device::Voice, u32::MAX)));
    assert_eq!(device_info_from_words(0, 1), Err(Error::UnknownDevice));
    let bus = MockBus::new(Device::Unknown, 0);
    let mut conf = MATRIX_VOICE.to_le_bytes().to_vec();
    conf.extend_from_slice(&3i32.to_le_bytes());
    bus.set(CONF, conf);
    assert_eq!(get_device_info(&bus), Ok((Device::Voice, 3)));
    assert_eq!(device_leds_of(Device::Creator), Some(35));
    assert_eq!(device_leds_of(Device::Voice), Some(18));
    assert_eq!(device_leds_of(Device::Unknown), None);
}

#[test]
fn fpga_frequency() {
    assert_eq!(fpga_frequency_from_values(3, 1), Ok(150_000_000));
    assert_eq!(fpga_frequency_from_values(5, 2), Ok(125_000_000));
    assert_eq!(fpga_frequency_from_values(1, 0), Err(Error::InvalidInput));
    assert_eq!(fpga_frequency_from_values(100, 1), Err(Error::InvalidInput));
    let bus = MockBus::new(Device::Creator, 35);
    bus.set(CONF + 4, vec![3, 0, 1, 0]);
    assert_eq!(get_fpga_frequency(&bus), Ok(150_000_000));
}

#[test]
fn sensors_only_on_creator() {
    let voice = MockBus::new(Device::Voice, 18);
    assert!(matches!(Sensors::new(&voice), Err(Error::UnknownDevice)));
    let creator = MockBus::new(Device::Creator, 35);
    let mut data = Vec::new();
    for v in [1500i32, -20, 25000] {
        data.extend_from_slice(&v.to_le_bytes());
    }
    creator.set(MCU + PRESSURE_OFFSET / 2, data);
    let sensors = Sensors::new(&creator).ok().unwrap();
    assert_eq!(sensors.read_values(PRESSURE_OFFSET, PRESSURE_BYTES).unwrap(), vec![1500, -20, 25000]);
    assert_eq!(get_buffer_length(60), 15);
}

#[test]
fn esp_error_codes() {
    assert_eq!(EspError::try_from(0x101), Ok(EspError::NoMem));
    assert_eq!(EspError::try_from(0x107), Ok(EspError::Timeout));
    assert_eq!(EspError::try_from(0x4000), Ok(EspError::MeshBase));
    assert_eq!(EspError::try_from(-1), Err(EnumFromIntError(u32::MAX)));
    assert_eq!(esp_int_into_result(0), Ok(()));
    assert_eq!(
        esp_int_into_result(0x102),
        Err(Error::EspIdf { error: EspError::InvalidArg })
    );
    assert_eq!(esp_int_into_result(5), Err(Error::EnumFromIntError { value: 5 }));
}

#[test]
fn spi_command_header() {
    assert_eq!(spi_address_bytes(4, true), [0x09, 0x00]);
    assert_eq!(spi_address_bytes(8, true), [0x11, 0x00]);
    assert_eq!(spi_address_bytes(256, true), [0x01, 0x02]);
    assert_eq!(spi_address_bytes(256, false), [0x00, 0x02]);
}

#[test]
fn ioctl_request_framing() {
    assert_eq!(ioctl_buffer_i32(&[]), 2);
    assert_eq!(ioctl_buffer_i32(&[1]), 3);
    assert_eq!(ioctl_buffer_i32(&[1, 2, 3, 4]), 3);
    assert_eq!(ioctl_buffer_i32(&[0; 5]), 4);
    assert_eq!(
        ioctl_request(0x4001, 2, &[7, 8]),
        vec![0x01, 0x40, 0, 0, 2, 0, 0, 0, 7, 8, 0, 0]
    );
    assert_eq!(ioctl_request(0x2000, 8, &[]), vec![0, 0x20, 0, 0, 8, 0, 0, 0, 0, 0, 0, 0, 0, 0, 0, 0]);
}

#[test]
fn spi_frames_carry_header_and_payload() {
    assert_eq!(spi_frame(0x3000, false, &[1, 2, 3]), vec![0x00, 0x60, 1, 2, 3]);
    assert_eq!(spi_frame(4, true, &[0, 0]), vec![0x09, 0x00, 0, 0]);
}

#[test]
fn failed_bus_write_keeps_pin_maps() {
    let bus = MockBus::new(Device::Creator, 35);
    let mut gpio = Gpio::new(&bus);
    gpio.set_config(1, Mode::Output).unwrap();
    bus.failing.set(true);
    assert_eq!(gpio.set_config(2, Mode::Output), Err(Error::BusFailure));
    assert_eq!(gpio.set_prescaler(0, 3), Err(Error::BusFailure));
    assert_eq!(gpio.get_state(0), Err(Error::BusFailure));
    assert_eq!(get_device_info(&bus), Err(Error::BusFailure));
    assert_eq!(gpio.mode_pin_map(), 0b10);
    assert_eq!(gpio.prescaler_bank_map(), 0);
}
