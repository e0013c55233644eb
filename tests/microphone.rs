use matrix_rhal::bus::{MatrixBus, CONF, MICROPHONE_ARRAY};
use matrix_rhal::codec::as_bytes;
use matrix_rhal::microphone::delays::delays_from_distances;
use matrix_rhal::microphone::mic_core::{FirCoeff, MicCore};
use matrix_rhal::microphone::{MicArray, SampleFreq, MIC_CHANNELS, NUM_SAMPLES, TOTAL_SAMPLES};
use matrix_rhal::{Device, Error};
use std::cell::{Cell, RefCell};
use std::collections::{HashMap, VecDeque};

/// A bus that keeps what is written to each register and hands it back on a
/// read; microphone reads come from a queue of blocks.
struct MockBus {
    registers: RefCell<HashMap<u16, Vec<u8>>>,
    writes: RefCell<Vec<(u16, Vec<u8>)>>,
    failing: Cell<bool>,
    mic_blocks: RefCell<VecDeque<Vec<u8>>>,
}

impl MockBus {
    fn new() -> MockBus {
        MockBus {
            registers: RefCell::new(HashMap::new()),
            writes: RefCell::new(Vec::new()),
            failing: Cell::new(false),
            mic_blocks: RefCell::new(VecDeque::new()),
        }
    }

    fn with_register(address: u16, value: u16) -> MockBus {
        let bus = MockBus::new();
        bus.registers.borrow_mut().insert(address, value.to_le_bytes().to_vec());
        bus
    }
}

impl MatrixBus for MockBus {
    fn write(&self, address: u16, write_buffer: &[u8]) -> Result<(), Error> {
        if self.failing.get() {
            return Err(Error::BusFailure);
        }
        self.writes.borrow_mut().push((address, write_buffer.to_vec()));
        self.registers.borrow_mut().insert(address, write_buffer.to_vec());
        Ok(())
    }

    fn read(&self, address: u16, read_buffer: &mut [u8]) -> Result<(), Error> {
        if self.failing.get() {
            return Err(Error::BusFailure);
        }
        let data = if address == MICROPHONE_ARRAY {
            self.mic_blocks.borrow_mut().pop_front().unwrap_or_default()
        } else {
            self.registers.borrow().get(&address).cloned().unwrap_or_default()
        };
        for (i, b) in read_buffer.iter_mut().enumerate() {
            *b = data.get(i).copied().unwrap_or(0);
        }
        Ok(())
    }

    fn close(&self) {}

    fn device_name(&self) -> Device {
        Device::Creator
    }

    fn device_version(&self) -> u32 {
        0
    }

    fn device_leds(&self) -> u8 {
        35
    }

    fn fpga_frequency(&self) -> u32 {
        150_000_000
    }
}

fn block_with(f: impl Fn(usize, usize) -> i16) -> Vec<i16> {
    let mut raw = vec![0i16; TOTAL_SAMPLES];
    for c in 0..MIC_CHANNELS {
        for s in 0..NUM_SAMPLES {
            raw[c * NUM_SAMPLES + s] = f(c, s);
        }
    }
    raw
}

fn table_rates() -> Vec<u32> {
    SampleFreq::table().iter().map(|f| f.sample_rate).collect()
}

fn fir_table() -> [FirCoeff; 9] {
    let rates = table_rates();
    let row = |i: usize| {
        let mut coeff = [0i16; 128];
        for (k, c) in coeff.iter_mut().enumerate() {
            *c = (i as i16 + 1) * 100 - k as i16;
        }
        FirCoeff::new(rates[i], coeff)
    };
    [row(0), row(1), row(2), row(3), row(4), row(5), row(6), row(7), row(8)]
}

fn constant_for(rate: u32) -> u16 {
    SampleFreq::from_rate(rate).unwrap().constant
}

#[test]
fn new_array_reads_configuration() {
    let bus = MockBus::with_register(CONF + 6, 67);
    bus.registers.borrow_mut().insert(CONF + 7, 7u16.to_le_bytes().to_vec());
    let mic = MicArray::new(&bus);
    assert_eq!(mic.sampling_rate(), 44100);
    assert_eq!(mic.gain(), 7);
    assert_eq!(mic.channels(), 8);
    assert_eq!(mic.number_of_samples(), 512);
}

#[test]
fn new_array_keeps_default_rate_on_unknown_constant() {
    let bus = MockBus::with_register(CONF + 6, 1234);
    let mic = MicArray::new(&bus);
    assert_eq!(mic.sampling_rate(), 16000);
}

#[test]
fn fir_selection_writes_table_row_for_every_rate() {
    let table = fir_table();
    for (i, rate) in table_rates().into_iter().enumerate() {
        let bus = MockBus::with_register(CONF + 6, constant_for(rate));
        let mic = MicArray::new(&bus);
        assert_eq!(mic.sampling_rate(), rate);
        let _core = MicCore::new(&mic, &table);
        let writes = bus.writes.borrow();
        let (address, bytes) = writes.last().unwrap();
        assert_eq!(*address, MICROPHONE_ARRAY);
        let mut expected = [0i16; 128];
        for (k, c) in expected.iter_mut().enumerate() {
            *c = (i as i16 + 1) * 100 - k as i16;
        }
        assert_eq!(*bytes, as_bytes(&expected));
        assert_eq!(bytes.len(), 256);
    }
}

#[test]
fn fir_selection_refuses_missing_rate_and_keeps_coefficients() {
    let table = fir_table();
    let bus = MockBus::with_register(CONF + 6, constant_for(16000));
    let mic = MicArray::new(&bus);
    let mut core = MicCore::new(&mic, &table);
    let before = bus.writes.borrow().last().unwrap().1.clone();
    let other_rates = [
        FirCoeff::new(8000, [1; 128]),
        FirCoeff::new(12000, [1; 128]),
        FirCoeff::new(22050, [1; 128]),
        FirCoeff::new(24000, [1; 128]),
        FirCoeff::new(32000, [1; 128]),
        FirCoeff::new(44100, [1; 128]),
        FirCoeff::new(48000, [1; 128]),
        FirCoeff::new(96000, [1; 128]),
        FirCoeff::new(11025, [1; 128]),
    ];
    let n_writes = bus.writes.borrow().len();
    assert_eq!(core.select_fir_coeff(&other_rates), Err(Error::InvalidInput));
    assert_eq!(bus.writes.borrow().len(), n_writes);
    core.set_fir_coeff().unwrap();
    assert_eq!(bus.writes.borrow().last().unwrap().1, before);
}

#[test]
fn custom_fir_coefficients_are_pushed() {
    let table = fir_table();
    let bus = MockBus::with_register(CONF + 6, constant_for(16000));
    let mic = MicArray::new(&bus);
    let mut core = MicCore::new(&mic, &table);
    let custom = [-2i16; 128];
    core.set_custom_fir_coeff(custom).unwrap();
    let last = bus.writes.borrow().last().unwrap().clone();
    assert_eq!(last.0, MICROPHONE_ARRAY);
    assert_eq!(last.1[0], 0xFE);
    assert_eq!(last.1[1], 0xFF);
}

#[test]
fn delayed_output_is_input_shifted_by_queue_depth() {
    let bus = MockBus::new();
    let mut mic = MicArray::new(&bus);
    let delays: Vec<u64> = (0..8).map(|c| c as u64 * 3).collect();
    mic.apply_delays(&delays).unwrap();
    // an impulse every 16 samples on every channel
    let raw = block_with(|c, s| if s % 16 == 0 { 100 + c as i16 } else { 0 });
    mic.process_samples(raw.clone()).unwrap();
    for c in 0..MIC_CHANNELS {
        let out = mic.samples_iter(c);
        let depth = delays[c] as usize;
        for s in 0..NUM_SAMPLES {
            if s < depth {
                assert_eq!(out[s], 0);
            } else {
                assert_eq!(out[s], raw[c * NUM_SAMPLES + s - depth]);
            }
        }
    }
    // the next cycle carries the tail of the previous one
    let raw2 = block_with(|_, _| 7);
    mic.process_samples(raw2).unwrap();
    for c in 0..MIC_CHANNELS {
        let out = mic.samples_iter(c);
        let depth = delays[c] as usize;
        for s in 0..depth {
            assert_eq!(out[s], raw[c * NUM_SAMPLES + NUM_SAMPLES - depth + s]);
        }
        for s in depth..NUM_SAMPLES {
            assert_eq!(out[s], 7);
        }
    }
}

#[test]
fn beamforming_saturates_at_max() {
    let bus = MockBus::new();
    let mut mic = MicArray::new(&bus);
    mic.process_samples(vec![i16::MAX; TOTAL_SAMPLES]).unwrap();
    assert!(mic.beamformed().iter().all(|&b| b == i16::MAX));
}

#[test]
fn beamforming_saturates_at_min() {
    let bus = MockBus::new();
    let mut mic = MicArray::new(&bus);
    mic.process_samples(vec![i16::MIN; TOTAL_SAMPLES]).unwrap();
    assert!(mic.beamformed().iter().all(|&b| b == i16::MIN));
}

#[test]
fn beamforming_sums_channels() {
    let bus = MockBus::new();
    let mut mic = MicArray::new(&bus);
    let raw = block_with(|c, s| (c as i16 + 1) * (s as i16 % 10));
    mic.process_samples(raw).unwrap();
    assert_eq!(mic.beamformed()[3], 36 * 3);
    assert_eq!(mic.beamformed()[511], 36);
}

#[test]
fn single_impulse_on_channel_zero() {
    let bus = MockBus::new();
    let mut mic = MicArray::new(&bus);
    for c in 0..MIC_CHANNELS {
        let mut block = vec![0i16; NUM_SAMPLES];
        if c == 0 {
            block[0] = 1000;
        }
        bus.mic_blocks.borrow_mut().push_back(as_bytes(&block));
    }
    mic.read().unwrap();
    assert_eq!(mic.beamformed()[0], 1000);
    assert!(mic.beamformed()[1..].iter().all(|&b| b == 0));
    assert_eq!(mic.samples_iter(0)[0], 1000);
    assert_eq!(mic.samples_iter(1)[0], 0);
}

#[test]
fn read_decodes_little_endian_samples() {
    let bus = MockBus::new();
    let mut mic = MicArray::new(&bus);
    for c in 0..MIC_CHANNELS {
        let block: Vec<i16> = (0..NUM_SAMPLES).map(|s| s as i16 - 256 * c as i16).collect();
        bus.mic_blocks.borrow_mut().push_back(as_bytes(&block));
    }
    mic.read().unwrap();
    assert_eq!(mic.samples_iter(3)[10], 10 - 768);
    assert_eq!(mic.samples_iter(7)[511], 511 - 1792);
}

#[test]
fn wrong_block_size_is_refused() {
    let bus = MockBus::new();
    let mut mic = MicArray::new(&bus);
    assert_eq!(mic.process_samples(vec![1; 100]), Err(Error::InvalidInput));
    assert!(mic.beamformed().iter().all(|&b| b == 0));
}

#[test]
fn delays_past_queue_capacity_are_refused() {
    let bus = MockBus::new();
    let mut mic = MicArray::new(&bus);
    assert_eq!(mic.apply_delays(&[0, 0, 0, 32, 0, 0, 0, 0]), Err(Error::InvalidInput));
    assert_eq!(mic.apply_delays(&[1, 2, 3]), Err(Error::InvalidInput));
    assert!(mic.apply_delays(&[31, 0, 0, 0, 0, 0, 0, 0]).is_ok());
    assert_eq!(mic.apply_delays(&[1, 0, 0, 0, 0, 0, 0, 0]), Err(Error::InvalidInput));
    // the refused calls left every other channel undelayed
    mic.process_samples(vec![5; TOTAL_SAMPLES]).unwrap();
    assert_eq!(mic.samples_iter(0)[30], 0);
    assert_eq!(mic.samples_iter(0)[31], 5);
    assert_eq!(mic.samples_iter(3)[0], 5);
}

#[test]
fn nearest_microphone_gets_no_delay_and_delays_grow_with_distance() {
    // micrometres; a source in line with microphone 0, opposite microphone 4
    let distances = [60_000u64, 70_000, 90_000, 110_000, 120_000, 110_000, 90_000, 70_000];
    let d = delays_from_distances(&distances, 48000, 320_000_000).unwrap();
    assert_eq!(d[0], 0);
    for i in 0..8 {
        for j in 0..8 {
            if distances[i] <= distances[j] {
                assert!(d[i] <= d[j]);
            }
        }
    }
    // 60 mm at 48 kHz and 320 m/s is exactly 9 samples
    assert_eq!(d[4], 9);
    // 10 mm is 1.5 samples, rounded up
    assert_eq!(d[1], 2);
}

#[test]
fn delay_rounds_to_nearest_sample() {
    // 50 mm at 16 kHz and 320 m/s: 2.5 samples, rounded up to 3
    let d = delays_from_distances(&[100_000, 150_000], 16000, 320_000_000).unwrap();
    assert_eq!(d, vec![0, 3]);
    // 40 mm: 2 samples
    let d = delays_from_distances(&[140_000, 100_000], 16000, 320_000_000).unwrap();
    assert_eq!(d, vec![2, 0]);
}

#[test]
fn zero_sound_speed_is_refused() {
    assert_eq!(delays_from_distances(&[1, 2], 16000, 0), Err(Error::InvalidInput));
}

#[test]
fn steering_straight_up_twice_from_fresh_gives_the_same_depths() {
    let distances = [100_000u64; 8];
    let mut depths = Vec::new();
    for _ in 0..2 {
        let bus = MockBus::new();
        let mut mic = MicArray::new(&bus);
        mic.calculate_delays_from_distances(&distances, 320_000_000).unwrap();
        let raw = block_with(|c, s| (c * 1000 + s) as i16);
        mic.process_samples(raw.clone()).unwrap();
        let first: Vec<i16> = (0..MIC_CHANNELS).map(|c| mic.samples_iter(c)[0]).collect();
        depths.push(first.clone());
        for c in 0..MIC_CHANNELS {
            assert_eq!(first[c], raw[c * NUM_SAMPLES]);
        }
    }
    assert_eq!(depths[0], depths[1]);
}

#[test]
fn steering_delays_the_far_channels() {
    let bus = MockBus::new();
    let mut mic = MicArray::new(&bus);
    let distances = [100_000u64, 120_000, 100_000, 100_000, 100_000, 100_000, 100_000, 100_000];
    // 20 mm at 16 kHz: exactly 1 sample
    mic.calculate_delays_from_distances(&distances, 320_000_000).unwrap();
    mic.process_samples(block_with(|_, s| s as i16 + 1)).unwrap();
    assert_eq!(mic.samples_iter(0)[0], 1);
    assert_eq!(mic.samples_iter(1)[0], 0);
    assert_eq!(mic.samples_iter(1)[1], 1);
}

#[test]
fn sample_rate_change() {
    let bus = MockBus::new();
    let mut mic = MicArray::new(&bus);
    assert!(mic.write_sample_rate(16000).is_ok());
    assert_eq!(mic.gain(), 3);
    assert!(mic.read_sample_rate().is_ok());
    assert_eq!(mic.sampling_rate(), 16000);
    assert_eq!(mic.write_sample_rate(99999), Err(Error::InvalidInput));
    assert_eq!(mic.sampling_rate(), 16000);
}

#[test]
fn sample_rate_writes_gain_then_constant() {
    let bus = MockBus::new();
    let mut mic = MicArray::new(&bus);
    mic.write_sample_rate(96000).unwrap();
    let writes = bus.writes.borrow();
    assert_eq!(writes.len(), 2);
    assert_eq!(writes[0], (CONF + 7, vec![9, 0]));
    assert_eq!(writes[1], (CONF + 6, vec![30, 0]));
    drop(writes);
    assert_eq!(mic.sampling_rate(), 96000);
    assert_eq!(mic.gain(), 9);
    assert_eq!(mic.write_sample_rate(0), Err(Error::InvalidInput));
    assert_eq!(bus.writes.borrow().len(), 2);
}

#[test]
fn reading_an_unknown_rate_constant_is_refused() {
    let bus = MockBus::new();
    let mut mic = MicArray::new(&bus);
    mic.write_sample_rate(8000).unwrap();
    bus.registers.borrow_mut().insert(CONF + 6, 999u16.to_le_bytes().to_vec());
    assert_eq!(mic.read_sample_rate(), Err(Error::InvalidInput));
    assert_eq!(mic.sampling_rate(), 8000);
    assert_eq!(mic.read_conf_values(), Err(Error::InvalidInput));
}

#[test]
fn gain_round_trip() {
    let bus = MockBus::new();
    let mut mic = MicArray::new(&bus);
    mic.write_gain(0x0102).unwrap();
    assert_eq!(bus.writes.borrow().last().unwrap(), &(CONF + 7, vec![2, 1]));
    mic.read_gain().unwrap();
    assert_eq!(mic.gain(), 0x0102);
}

#[test]
fn sample_rate_table_lookups() {
    assert_eq!(SampleFreq::from_rate(22050), Some(SampleFreq::new(22050, 135, 5)));
    assert_eq!(SampleFreq::from_constant(92), Some(SampleFreq::new(32000, 92, 6)));
    assert_eq!(SampleFreq::from_rate(44000), None);
    assert_eq!(SampleFreq::from_constant(0), None);
    assert_eq!(SampleFreq::table().len(), 9);
}

#[test]
fn unknown_rate_constant_keeps_default_gain_and_rate() {
    let bus = MockBus::with_register(CONF + 6, 1234);
    bus.registers.borrow_mut().insert(CONF + 7, 7u16.to_le_bytes().to_vec());
    let mic = MicArray::new(&bus);
    assert_eq!(mic.sampling_rate(), 16000);
    assert_eq!(mic.gain(), 3);
}

#[test]
fn conf_values_are_taken_together() {
    let bus = MockBus::new();
    let mut mic = MicArray::new(&bus);
    assert_eq!(mic.set_conf_values(9, 1000), Err(Error::InvalidInput));
    assert_eq!((mic.gain(), mic.sampling_rate()), (3, 16000));
    assert!(mic.set_conf_values(9, 61).is_ok());
    assert_eq!((mic.gain(), mic.sampling_rate()), (9, 48000));
    assert_eq!(mic.set_rate_from_constant(5), Err(Error::InvalidInput));
    assert!(mic.set_rate_from_constant(374).is_ok());
    assert_eq!((mic.gain(), mic.sampling_rate()), (9, 8000));
    mic.set_gain_from_bytes(&[0x34, 0x12]);
    assert_eq!(mic.gain(), 0x1234);
}

#[test]
fn failed_bus_read_aborts_the_cycle() {
    let bus = MockBus::new();
    let mut mic = MicArray::new(&bus);
    mic.process_samples(vec![4; TOTAL_SAMPLES]).unwrap();
    bus.failing.set(true);
    assert_eq!(mic.read(), Err(Error::BusFailure));
    assert!(mic.beamformed().iter().all(|&b| b == 32));
    assert_eq!(mic.samples_iter(2)[7], 4);
    assert_eq!(mic.read_gain(), Err(Error::BusFailure));
    assert_eq!(mic.read_conf_values(), Err(Error::BusFailure));
    assert_eq!(mic.gain(), 3);
}

#[test]
fn failed_bus_write_keeps_rate_and_coefficients() {
    let table = fir_table();
    let bus = MockBus::with_register(CONF + 6, constant_for(16000));
    let mut mic = MicArray::new(&bus);
    bus.failing.set(true);
    assert_eq!(mic.write_sample_rate(48000), Err(Error::BusFailure));
    assert_eq!((mic.gain(), mic.sampling_rate()), (0, 16000));
    assert_eq!(mic.write_gain(1), Err(Error::BusFailure));
    assert_eq!(mic.gain(), 0);
    bus.failing.set(false);
    let mut core = MicCore::new(&mic, &table);
    let before = bus.writes.borrow().last().unwrap().1.clone();
    bus.failing.set(true);
    assert_eq!(core.set_custom_fir_coeff([5; 128]), Err(Error::BusFailure));
    bus.failing.set(false);
    core.set_fir_coeff().unwrap();
    assert_eq!(bus.writes.borrow().last().unwrap().1, before);
}
