//! The microphone array: delay compensation and delay-and-sum beamforming.
use vstd::prelude::*;

pub mod delay_queue;
pub mod delays;
pub mod mic_core;

use crate::bus::MatrixBus;
use crate::codec;
use crate::codec::LeBytes;
use crate::Error;
use delay_queue::DelayQueue;

verus! {

/// Bytes the FPGA buffers per read cycle, over all channels.
pub const MIC_ARRAY_BUFFER_SIZE: usize = 4096;
/// Number of microphones.
pub const MIC_CHANNELS: usize = 8;
/// Samples per channel in one read cycle: `MIC_ARRAY_BUFFER_SIZE / MIC_CHANNELS`.
pub const NUM_SAMPLES: usize = 512;
/// Samples in one read cycle, over all channels: `MIC_CHANNELS * NUM_SAMPLES`.
pub const TOTAL_SAMPLES: usize = 4096;
/// The longest delay, in samples, a channel can be given: one slot of each
/// delay line stays free for the sample that enters before the oldest leaves.
pub const MAX_DELAY: usize = 31;
/// Number of rows of the sampling-frequency table.
pub const NUM_SUPPORTED_FREQ: usize = 9;

/// One row of the sampling-frequency table.
#[derive(Clone, Copy, Debug, PartialEq, Eq, Structural)]
pub struct SampleFreq {
    /// Sampling rate, in Hz.
    pub sample_rate: u32,
    /// Value of the FPGA's rate-constant register for this rate.
    pub constant: u16,
    /// Gain the FPGA is given with this rate.
    pub gain: u16,
}

/// The supported sampling rates, their rate constants and gains.
pub open spec fn sampling_frequencies() -> Seq<SampleFreq> {
    seq![
        SampleFreq { sample_rate: 8000, constant: 374, gain: 0 },
        SampleFreq { sample_rate: 12000, constant: 249, gain: 2 },
        SampleFreq { sample_rate: 16000, constant: 186, gain: 3 },
        SampleFreq { sample_rate: 22050, constant: 135, gain: 5 },
        SampleFreq { sample_rate: 24000, constant: 124, gain: 5 },
        SampleFreq { sample_rate: 32000, constant: 92, gain: 6 },
        SampleFreq { sample_rate: 44100, constant: 67, gain: 7 },
        SampleFreq { sample_rate: 48000, constant: 61, gain: 7 },
        SampleFreq { sample_rate: 96000, constant: 30, gain: 9 },
    ]
}

/// `rate` is a row of the sampling-frequency table.
pub open spec fn rate_supported(rate: u32) -> bool {
    exists|i: int| 0 <= i < NUM_SUPPORTED_FREQ && #[trigger] sampling_frequencies()[i].sample_rate == rate
}

/// `constant` is the rate constant of a row of the sampling-frequency table.
pub open spec fn constant_supported(constant: u16) -> bool {
    exists|i: int| 0 <= i < NUM_SUPPORTED_FREQ && #[trigger] sampling_frequencies()[i].constant == constant
}

impl SampleFreq {
    pub fn new(sample_rate: u32, constant: u16, gain: u16) -> (r: SampleFreq)
        ensures
            r == (SampleFreq { sample_rate, constant, gain }),
    {
        SampleFreq { sample_rate, constant, gain }
    }

    /// The sampling-frequency table.
    pub fn table() -> (r: Vec<SampleFreq>)
        ensures
            r@ == sampling_frequencies(),
    {
        let r = vec![
            SampleFreq::new(8000, 374, 0),
            SampleFreq::new(12000, 249, 2),
            SampleFreq::new(16000, 186, 3),
            SampleFreq::new(22050, 135, 5),
            SampleFreq::new(24000, 124, 5),
            SampleFreq::new(32000, 92, 6),
            SampleFreq::new(44100, 67, 7),
            SampleFreq::new(48000, 61, 7),
            SampleFreq::new(96000, 30, 9),
        ];
        proof {
            assert(r@ =~= sampling_frequencies());
        }
        r
    }

    /// The row of the table for `sample_rate`, if there is one.
    pub fn from_rate(sample_rate: u32) -> (r: Option<SampleFreq>)
        ensures
            r is None <==> !rate_supported(sample_rate),
            r matches Some(f) ==> exists|i: int|
                0 <= i < NUM_SUPPORTED_FREQ && #[trigger] sampling_frequencies()[i] == f
                    && f.sample_rate == sample_rate,
    {
        let table = SampleFreq::table();
        let mut i: usize = 0;
        while i < table.len()
            invariant
                table@ == sampling_frequencies(),
                i <= table@.len(),
                forall|k: int| 0 <= k < i ==> table@[k].sample_rate != sample_rate,
            decreases table@.len() - i,
        {
            if table[i].sample_rate == sample_rate {
                return Some(table[i]);
            }
            i = i + 1;
        }
        None
    }

    /// The row of the table whose rate constant is `constant`, if there is one.
    pub fn from_constant(constant: u16) -> (r: Option<SampleFreq>)
        ensures
            r is None <==> forall|i: int|
                0 <= i < NUM_SUPPORTED_FREQ ==> #[trigger] sampling_frequencies()[i].constant
                    != constant,
            r matches Some(f) ==> exists|i: int|
                0 <= i < NUM_SUPPORTED_FREQ && #[trigger] sampling_frequencies()[i] == f
                    && f.constant == constant,
    {
        let table = SampleFreq::table();
        let mut i: usize = 0;
        while i < table.len()
            invariant
                table@ == sampling_frequencies(),
                i <= table@.len(),
                forall|k: int| 0 <= k < i ==> table@[k].constant != constant,
            decreases table@.len() - i,
        {
            if table[i].constant == constant {
                return Some(table[i]);
            }
            i = i + 1;
        }
        None
    }
}

} // verus!

verus! {

/// The samples of channel `c` in a channel-major block.
pub open spec fn block(data: Seq<i16>, c: int) -> Seq<i16> {
    data.subrange(c * NUM_SAMPLES, c * NUM_SAMPLES + NUM_SAMPLES)
}

/// Sample `s` of channel `c` in a channel-major block.
pub open spec fn sample_at(data: Seq<i16>, c: int, s: int) -> i16 {
    data[c * NUM_SAMPLES + s]
}

/// The sum of sample `s` over channels `0..k`.
pub open spec fn channel_sum(data: Seq<i16>, s: int, k: int) -> int
    decreases k,
{
    if k <= 0 {
        0
    } else {
        channel_sum(data, s, k - 1) + sample_at(data, k - 1, s)
    }
}

/// `v` saturated to the range of `i16`.
pub open spec fn clamp_i16(v: int) -> i16 {
    if v < i16::MIN {
        i16::MIN
    } else if v > i16::MAX {
        i16::MAX
    } else {
        v as i16
    }
}

/// What channel `c` of a delay line holding `q` sees when the block `raw`
/// enters it: the held samples, then the new ones.
pub open spec fn stream(q: Seq<i16>, raw: Seq<i16>, c: int) -> Seq<i16> {
    q + block(raw, c)
}

proof fn lemma_channel_sum_frame(a: Seq<i16>, b: Seq<i16>, s: int, k: int)
    requires
        forall|c: int| 0 <= c < k ==> #[trigger] sample_at(a, c, s) == sample_at(b, c, s),
    ensures
        channel_sum(a, s, k) == channel_sum(b, s, k),
    decreases k,
{
    if k > 0 {
        lemma_channel_sum_frame(a, b, s, k - 1);
    }
}

/// The 8-microphone array: one delay line per channel, the delay-compensated
/// samples of the last read cycle, and their saturated sum.
pub struct MicArray<'a, B: MatrixBus> {
    bus: &'a B,
    gain: u16,
    sample_rate: u32,
    /// Raw samples of the last cycle, channel-major.
    raw_data: Vec<i16>,
    /// Delay-compensated samples of the last cycle, channel-major.
    delayed_data: Vec<i16>,
    beamformed: Vec<i16>,
    fifos: Vec<DelayQueue>,
}

impl<'a, B: MatrixBus> MicArray<'a, B> {
    /// The gain last read from or written to the device.
    pub closed spec fn spec_gain(&self) -> u16 {
        self.gain
    }

    /// The sampling rate last read from or written to the device.
    pub closed spec fn spec_sampling_rate(&self) -> u32 {
        self.sample_rate
    }

    /// The samples held by channel `c`'s delay line, oldest first.
    pub closed spec fn queue(&self, c: int) -> Seq<i16> {
        delay_queue::queue_contents(self.fifos@[c])
    }

    /// Raw samples of the last read cycle, channel-major.
    pub closed spec fn raw(&self) -> Seq<i16> {
        self.raw_data@
    }

    /// Delay-compensated samples of the last read cycle, channel-major.
    pub closed spec fn delayed(&self) -> Seq<i16> {
        self.delayed_data@
    }

    /// Beamformed samples of the last read cycle.
    pub closed spec fn beamformed_view(&self) -> Seq<i16> {
        self.beamformed@
    }

    /// The buffers have their sizes and no delay line is longer than
    /// `MAX_DELAY`.
    pub closed spec fn wf(&self) -> bool {
        &&& self.raw_data@.len() == TOTAL_SAMPLES
        &&& self.delayed_data@.len() == TOTAL_SAMPLES
        &&& self.beamformed@.len() == NUM_SAMPLES
        &&& self.fifos@.len() == MIC_CHANNELS
        &&& forall|c: int|
            0 <= c < MIC_CHANNELS ==> #[trigger] delay_queue::queue_contents(self.fifos@[c]).len()
                <= MAX_DELAY
    }

    /// Every delay line is at most `MAX_DELAY` long.
    pub proof fn lemma_depths(&self)
        requires
            self.wf(),
        ensures
            forall|c: int| 0 <= c < MIC_CHANNELS ==> #[trigger] self.queue(c).len() <= MAX_DELAY,
    {
    }

    /// The sample buffers have their sizes: `NUM_SAMPLES` per channel.
    pub proof fn lemma_lengths(&self)
        requires
            self.wf(),
        ensures
            self.raw().len() == TOTAL_SAMPLES,
            self.delayed().len() == TOTAL_SAMPLES,
            self.beamformed_view().len() == NUM_SAMPLES,
    {
    }

    /// `self` is what one delay-and-sum cycle over its raw block makes of
    /// `prev`: each channel's stream (held samples, then the new block) gives
    /// its first `NUM_SAMPLES` samples as output and keeps the rest, and each
    /// output sample of the beam is the saturated sum over channels.
    pub open spec fn cycle_of(&self, prev: &Self) -> bool {
        &&& self.spec_gain() == prev.spec_gain()
        &&& self.spec_sampling_rate() == prev.spec_sampling_rate()
        &&& forall|c: int|
            0 <= c < MIC_CHANNELS ==> #[trigger] block(self.delayed(), c) == stream(
                prev.queue(c),
                self.raw(),
                c,
            ).subrange(0, NUM_SAMPLES as int)
        &&& forall|c: int|
            0 <= c < MIC_CHANNELS ==> #[trigger] self.queue(c) == stream(
                prev.queue(c),
                self.raw(),
                c,
            ).subrange(NUM_SAMPLES as int, NUM_SAMPLES + prev.queue(c).len())
        &&& forall|s: int|
            0 <= s < NUM_SAMPLES ==> #[trigger] self.beamformed_view()[s] == clamp_i16(
                channel_sum(self.delayed(), s, MIC_CHANNELS as int),
            )
    }

    fn delay_and_sum(&mut self)
        requires
            old(self).wf(),
        ensures
            final(self).wf(),
            final(self).raw() == old(self).raw(),
            final(self).cycle_of(old(self)),
    {
        let ghost q0 = Seq::new(MIC_CHANNELS as nat, |c: int| self.queue(c));
        let ghost raw = self.raw_data@;
        let ghost gain0 = self.gain;
        let ghost rate0 = self.sample_rate;
        let mut s: usize = 0;
        while s < NUM_SAMPLES
            invariant
                s <= NUM_SAMPLES,
                self.raw_data@ == raw,
                raw.len() == TOTAL_SAMPLES,
                self.gain == gain0,
                self.sample_rate == rate0,
                self.delayed_data@.len() == TOTAL_SAMPLES,
                self.beamformed@.len() == NUM_SAMPLES,
                self.fifos@.len() == MIC_CHANNELS,
                forall|c: int| 0 <= c < MIC_CHANNELS ==> #[trigger] q0[c].len() <= MAX_DELAY,
                forall|c: int|
                    0 <= c < MIC_CHANNELS ==> #[trigger] delay_queue::queue_contents(self.fifos@[c])
                        == stream(q0[c], raw, c).subrange(s as int, s + q0[c].len()),
                forall|c: int, t: int|
                    0 <= c < MIC_CHANNELS && 0 <= t < s ==> #[trigger] sample_at(
                        self.delayed_data@,
                        c,
                        t,
                    ) == stream(q0[c], raw, c)[t],
                forall|t: int|
                    0 <= t < s ==> #[trigger] self.beamformed@[t] == clamp_i16(
                        channel_sum(self.delayed_data@, t, MIC_CHANNELS as int),
                    ),
            decreases NUM_SAMPLES - s,
        {
            let ghost delayed_before = self.delayed_data@;
            let ghost beam_start = self.beamformed@;
            let mut sum: i32 = 0;
            let mut c: usize = 0;
            while c < MIC_CHANNELS
                invariant
                    s < NUM_SAMPLES,
                    c <= MIC_CHANNELS,
                    self.raw_data@ == raw,
                    raw.len() == TOTAL_SAMPLES,
                    self.gain == gain0,
                    self.sample_rate == rate0,
                    self.delayed_data@.len() == TOTAL_SAMPLES,
                    self.beamformed@ == beam_start,
                    beam_start.len() == NUM_SAMPLES,
                    forall|t: int|
                        0 <= t < s ==> #[trigger] beam_start[t] == clamp_i16(
                            channel_sum(delayed_before, t, MIC_CHANNELS as int),
                        ),
                    self.fifos@.len() == MIC_CHANNELS,
                    forall|k: int| 0 <= k < MIC_CHANNELS ==> #[trigger] q0[k].len() <= MAX_DELAY,
                    forall|k: int|
                        0 <= k < c ==> #[trigger] delay_queue::queue_contents(self.fifos@[k])
                            == stream(q0[k], raw, k).subrange(s + 1, s + 1 + q0[k].len()),
                    forall|k: int|
                        c <= k < MIC_CHANNELS ==> #[trigger] delay_queue::queue_contents(
                            self.fifos@[k],
                        ) == stream(q0[k], raw, k).subrange(s as int, s + q0[k].len()),
                    forall|k: int, t: int|
                        0 <= k < MIC_CHANNELS && 0 <= t < s ==> #[trigger] sample_at(
                            self.delayed_data@,
                            k,
                            t,
                        ) == sample_at(delayed_before, k, t),
                    forall|k: int|
                        0 <= k < c ==> #[trigger] sample_at(self.delayed_data@, k, s as int)
                            == stream(q0[k], raw, k)[s as int],
                    sum == channel_sum(self.delayed_data@, s as int, c as int),
                    -32768 * c <= sum <= 32767 * c,
                decreases MIC_CHANNELS - c,
            {
                let ghost st = stream(q0[c as int], raw, c as int);
                let ghost len = q0[c as int].len();
                let x = self.raw_data[c * NUM_SAMPLES + s];
                proof {
                    assert(st[s + len] == x);
                }
                let _ = self.fifos[c].enqueue(x);
                proof {
                    assert(delay_queue::queue_contents(self.fifos@[c as int])
                        =~= st.subrange(s as int, s + len + 1));
                }
                let y = match self.fifos[c].dequeue() {
                    Some(y) => y,
                    None => 0,
                };
                proof {
                    assert(y == st[s as int]);
                    assert(delay_queue::queue_contents(self.fifos@[c as int])
                        =~= st.subrange(s + 1, s + 1 + len));
                }
                let ghost delayed_mid = self.delayed_data@;
                self.delayed_data[c * NUM_SAMPLES + s] = y;
                proof {
                    assert forall|k: int| 0 <= k < c + 1 implies #[trigger] sample_at(
                        self.delayed_data@,
                        k,
                        s as int,
                    ) == stream(q0[k], raw, k)[s as int] by {
                        if k < c {
                            assert(sample_at(delayed_mid, k, s as int) == sample_at(
                                self.delayed_data@,
                                k,
                                s as int,
                            ));
                        }
                    }
                    assert forall|k: int, t: int|
                        0 <= k < MIC_CHANNELS && 0 <= t < s implies #[trigger] sample_at(
                        self.delayed_data@,
                        k,
                        t,
                    ) == sample_at(delayed_before, k, t) by {
                        assert(sample_at(delayed_mid, k, t) == sample_at(self.delayed_data@, k, t));
                    }
                    assert forall|k: int| 0 <= k < c implies #[trigger] sample_at(
                        delayed_mid,
                        k,
                        s as int,
                    ) == sample_at(self.delayed_data@, k, s as int) by {
                        assert(k * NUM_SAMPLES + s != c * NUM_SAMPLES + s);
                    }
                    lemma_channel_sum_frame(
                        delayed_mid,
                        self.delayed_data@,
                        s as int,
                        c as int,
                    );
                }
                sum = sum + y as i32;
                c = c + 1;
            }
            let b: i16 = if sum < -32768 {
                -32768
            } else if sum > 32767 {
                32767
            } else {
                sum as i16
            };
            assert(b == clamp_i16(channel_sum(self.delayed_data@, s as int, MIC_CHANNELS as int)));
            let ghost beam_before = self.beamformed@;
            self.beamformed[s] = b;
            proof {
                assert forall|k: int, t: int|
                    0 <= k < MIC_CHANNELS && 0 <= t < s + 1 implies #[trigger] sample_at(
                    self.delayed_data@,
                    k,
                    t,
                ) == stream(q0[k], raw, k)[t] by {
                    if t < s {
                        assert(sample_at(self.delayed_data@, k, t) == sample_at(
                            delayed_before,
                            k,
                            t,
                        ));
                    }
                }
                assert forall|t: int| 0 <= t < s + 1 implies #[trigger] self.beamformed@[t]
                    == clamp_i16(channel_sum(self.delayed_data@, t, MIC_CHANNELS as int)) by {
                    if t < s {
                        assert(self.beamformed@[t] == beam_before[t]);
                        assert forall|k: int| 0 <= k < MIC_CHANNELS implies #[trigger] sample_at(
                            delayed_before,
                            k,
                            t,
                        ) == sample_at(self.delayed_data@, k, t) by {}
                        lemma_channel_sum_frame(
                            delayed_before,
                            self.delayed_data@,
                            t,
                            MIC_CHANNELS as int,
                        );
                    }
                }
            }
            s = s + 1;
        }
        proof {
            assert forall|c: int| 0 <= c < MIC_CHANNELS implies #[trigger] block(
                self.delayed_data@,
                c,
            ) == stream(q0[c], raw, c).subrange(0, NUM_SAMPLES as int) by {
                assert forall|t: int| 0 <= t < NUM_SAMPLES implies block(self.delayed_data@, c)[t]
                    == stream(q0[c], raw, c)[t] by {
                    assert(sample_at(self.delayed_data@, c, t) == stream(q0[c], raw, c)[t]);
                }
                assert(block(self.delayed_data@, c) =~= stream(q0[c], raw, c).subrange(
                    0,
                    NUM_SAMPLES as int,
                ));
            }
        }
    }
}

} // verus!

verus! {

/// `n` zero samples.
pub open spec fn zeros(n: nat) -> Seq<i16> {
    Seq::new(n, |i: int| 0i16)
}

impl<'a, B: MatrixBus> MicArray<'a, B> {
    /// The sample buffers and the delay lines of `self` and `other` agree.
    pub open spec fn same_samples(&self, other: &Self) -> bool {
        &&& self.raw() == other.raw()
        &&& self.delayed() == other.delayed()
        &&& self.beamformed_view() == other.beamformed_view()
        &&& forall|c: int| 0 <= c < MIC_CHANNELS ==> #[trigger] self.queue(c) == other.queue(c)
    }

    /// A microphone array on `bus`, with empty delay lines (every channel
    /// in step), zeroed buffers, and the gain and sampling rate the device
    /// reports (see `read_conf_values` and `set_conf_values`); where it
    /// reports a rate constant that is not in the table, or a read fails,
    /// the defaults stay: gain 3 at 16000 Hz.
    pub fn new(bus: &'a B) -> (r: Self)
        ensures
            r.wf(),
            forall|c: int| 0 <= c < MIC_CHANNELS ==> #[trigger] r.queue(c) == Seq::<i16>::empty(),
            rate_supported(r.spec_sampling_rate()),
            (r.spec_gain() == 3 && r.spec_sampling_rate() == 16000) || exists|i: int|
                0 <= i < NUM_SUPPORTED_FREQ && #[trigger] sampling_frequencies()[i].sample_rate
                    == r.spec_sampling_rate(),
            r.raw() == Seq::new(TOTAL_SAMPLES as nat, |i: int| 0i16),
            r.delayed() == Seq::new(TOTAL_SAMPLES as nat, |i: int| 0i16),
            r.beamformed_view() == Seq::new(NUM_SAMPLES as nat, |i: int| 0i16),
    {
        let mut fifos: Vec<DelayQueue> = Vec::with_capacity(MIC_CHANNELS);
        let mut c: usize = 0;
        while c < MIC_CHANNELS
            invariant
                c <= MIC_CHANNELS,
                fifos@.len() == c,
                forall|k: int|
                    0 <= k < c ==> #[trigger] delay_queue::queue_contents(fifos@[k])
                        == Seq::<i16>::empty(),
            decreases MIC_CHANNELS - c,
        {
            fifos.push(DelayQueue::new());
            c = c + 1;
        }
        let mut mic = MicArray {
            bus,
            gain: 3,
            sample_rate: 16000,
            raw_data: vec![0i16; TOTAL_SAMPLES],
            delayed_data: vec![0i16; TOTAL_SAMPLES],
            beamformed: vec![0i16; NUM_SAMPLES],
            fifos,
        };
        proof {
            assert(sampling_frequencies()[2].sample_rate == 16000);
            assert(mic.raw_data@ =~= Seq::new(TOTAL_SAMPLES as nat, |i: int| 0i16));
            assert(mic.delayed_data@ =~= Seq::new(TOTAL_SAMPLES as nat, |i: int| 0i16));
            assert(mic.beamformed@ =~= Seq::new(NUM_SAMPLES as nat, |i: int| 0i16));
        }
        let _ = mic.read_conf_values();
        mic
    }

    /// Runs one block of raw samples (channel-major, `NUM_SAMPLES` per
    /// channel) through the delay lines and the beamformer. A block of
    /// another size is refused and nothing changes.
    pub fn process_samples(&mut self, raw: Vec<i16>) -> (r: Result<(), Error>)
        requires
            old(self).wf(),
        ensures
            final(self).wf(),
            raw@.len() != TOTAL_SAMPLES ==> {
                &&& r == Err::<(), Error>(Error::InvalidInput)
                &&& final(self).same_samples(old(self))
                &&& final(self).spec_gain() == old(self).spec_gain()
                &&& final(self).spec_sampling_rate() == old(self).spec_sampling_rate()
            },
            raw@.len() == TOTAL_SAMPLES ==> {
                &&& r is Ok
                &&& final(self).raw() == raw@
                &&& final(self).cycle_of(old(self))
            },
    {
        if raw.len() != TOTAL_SAMPLES {
            return Err(Error::InvalidInput);
        }
        self.raw_data = raw;
        self.delay_and_sum();
        Ok(())
    }

    /// Reads one block of samples per channel from the microphone array and
    /// runs it through the delay lines and the beamformer. Call it once the
    /// device has signalled that new data is ready. A failed bus read ends
    /// the cycle with the bus's error, and nothing changes.
    pub fn read(&mut self) -> (r: Result<(), Error>)
        requires
            old(self).wf(),
        ensures
            final(self).wf(),
            final(self).spec_gain() == old(self).spec_gain(),
            final(self).spec_sampling_rate() == old(self).spec_sampling_rate(),
            r is Ok ==> final(self).cycle_of(old(self)),
            r is Err ==> final(self).same_samples(old(self)),
    {
        let mut raw: Vec<i16> = Vec::with_capacity(TOTAL_SAMPLES);
        let mut c: usize = 0;
        while c < MIC_CHANNELS
            invariant
                c <= MIC_CHANNELS,
                raw@.len() == c * NUM_SAMPLES,
                *self == *old(self),
                self.wf(),
            decreases MIC_CHANNELS - c,
        {
            let mut bytes: Vec<u8> = vec![0u8; 2 * NUM_SAMPLES];
            self.bus.read(crate::bus::MICROPHONE_ARRAY, bytes.as_mut_slice())?;
            let mut samples = codec::decode_samples(bytes.as_slice());
            raw.append(&mut samples);
            c = c + 1;
        }
        self.raw_data = raw;
        self.delay_and_sum();
        Ok(())
    }

    /// The delay-compensated samples of `channel` from the last read cycle.
    pub fn samples_iter(&self, channel: usize) -> (r: Vec<i16>)
        requires
            self.wf(),
            channel < MIC_CHANNELS,
        ensures
            r@ == block(self.delayed(), channel as int),
    {
        let mut r: Vec<i16> = Vec::with_capacity(NUM_SAMPLES);
        let base: usize = channel * NUM_SAMPLES;
        let mut s: usize = 0;
        while s < NUM_SAMPLES
            invariant
                self.wf(),
                channel < MIC_CHANNELS,
                base == channel * NUM_SAMPLES,
                s <= NUM_SAMPLES,
                r@ == self.delayed().subrange(base as int, base + s),
            decreases NUM_SAMPLES - s,
        {
            r.push(self.delayed_data[base + s]);
            s = s + 1;
            proof {
                assert(r@ =~= self.delayed().subrange(base as int, base + s));
            }
        }
        r
    }

    /// The beamformed samples of the last read cycle.
    pub fn beamformed(&self) -> (r: &Vec<i16>)
        ensures
            r@ == self.beamformed_view(),
    {
        &self.beamformed
    }

    /// The current sampling rate, in Hz.
    pub fn sampling_rate(&self) -> (r: u32)
        ensures
            r == self.spec_sampling_rate(),
    {
        self.sample_rate
    }

    /// The current gain.
    pub fn gain(&self) -> (r: u16)
        ensures
            r == self.spec_gain(),
    {
        self.gain
    }

    /// The number of microphones.
    pub fn channels(&self) -> (r: u16)
        ensures
            r == MIC_CHANNELS,
    {
        MIC_CHANNELS as u16
    }

    /// The number of samples per channel in one read cycle.
    pub fn number_of_samples(&self) -> (r: u16)
        ensures
            r == NUM_SAMPLES,
    {
        NUM_SAMPLES as u16
    }

    /// The bus this array reads from.
    pub fn bus(&self) -> (r: &'a B) {
        self.bus
    }

    /// Takes the gain from the two little-endian bytes of the gain
    /// register.
    pub fn set_gain_from_bytes(&mut self, bytes: &[u8])
        requires
            old(self).wf(),
            bytes@.len() >= 2,
        ensures
            final(self).wf(),
            final(self).spec_gain() == codec::u16_le(bytes@[0], bytes@[1]),
            final(self).same_samples(old(self)),
            final(self).spec_sampling_rate() == old(self).spec_sampling_rate(),
    {
        self.gain = codec::read_u16_le(bytes, 0);
    }

    /// Takes the sampling rate of the table row whose rate constant is
    /// `constant`. Where no row has it, `InvalidInput` is returned and
    /// nothing changes.
    pub fn set_rate_from_constant(&mut self, constant: u16) -> (r: Result<(), Error>)
        requires
            old(self).wf(),
        ensures
            final(self).wf(),
            final(self).same_samples(old(self)),
            final(self).spec_gain() == old(self).spec_gain(),
            r is Ok <==> constant_supported(constant),
            r is Ok ==> exists|i: int|
                0 <= i < NUM_SUPPORTED_FREQ && #[trigger] sampling_frequencies()[i].constant
                    == constant && sampling_frequencies()[i].sample_rate == final(self).spec_sampling_rate(),
            r is Err ==> r == Err::<(), Error>(Error::InvalidInput)
                && final(self).spec_sampling_rate() == old(self).spec_sampling_rate(),
    {
        match SampleFreq::from_constant(constant) {
            Some(f) => {
                self.sample_rate = f.sample_rate;
                Ok(())
            },
            None => Err(Error::InvalidInput),
        }
    }

    /// Takes the gain `gain` and the rate of the table row whose rate
    /// constant is `constant`, both or neither: where no row has the
    /// constant, `InvalidInput` is returned and nothing changes.
    pub fn set_conf_values(&mut self, gain: u16, constant: u16) -> (r: Result<(), Error>)
        requires
            old(self).wf(),
        ensures
            final(self).wf(),
            final(self).same_samples(old(self)),
            r is Ok <==> constant_supported(constant),
            r is Ok ==> final(self).spec_gain() == gain && exists|i: int|
                0 <= i < NUM_SUPPORTED_FREQ && #[trigger] sampling_frequencies()[i].constant
                    == constant && sampling_frequencies()[i].sample_rate == final(self).spec_sampling_rate(),
            r is Err ==> {
                &&& r == Err::<(), Error>(Error::InvalidInput)
                &&& final(self).spec_sampling_rate() == old(self).spec_sampling_rate()
                &&& final(self).spec_gain() == old(self).spec_gain()
            },
    {
        self.set_rate_from_constant(constant)?;
        let ghost mid = *self;
        self.gain = gain;
        assert forall|c: int| 0 <= c < MIC_CHANNELS implies #[trigger] self.queue(c)
            == old(self).queue(c) by {
            assert(mid.queue(c) == old(self).queue(c));
        }
        Ok(())
    }

    /// Reads the gain register of the device into this array's state. A
    /// failed bus read is returned, and nothing changes.
    pub fn read_gain(&mut self) -> (r: Result<(), Error>)
        requires
            old(self).wf(),
        ensures
            final(self).wf(),
            final(self).same_samples(old(self)),
            final(self).spec_sampling_rate() == old(self).spec_sampling_rate(),
            r is Err ==> final(self).spec_gain() == old(self).spec_gain(),
    {
        let mut buffer: Vec<u8> = vec![0u8; 2];
        self.bus.read(crate::bus::CONF + 0x07, buffer.as_mut_slice())?;
        self.set_gain_from_bytes(buffer.as_slice());
        Ok(())
    }

    /// Writes `gain` to the device's gain register and keeps it. Where the
    /// bus write fails, its error is returned and the gain is kept as it
    /// was.
    pub fn write_gain(&mut self, gain: u16) -> (r: Result<(), Error>)
        requires
            old(self).wf(),
        ensures
            final(self).wf(),
            r is Ok ==> final(self).spec_gain() == gain,
            r is Err ==> final(self).spec_gain() == old(self).spec_gain(),
            final(self).same_samples(old(self)),
            final(self).spec_sampling_rate() == old(self).spec_sampling_rate(),
    {
        let bytes = gain.le_bytes();
        self.bus.write(crate::bus::CONF + 0x07, bytes.as_slice())?;
        self.gain = gain;
        Ok(())
    }

    /// Reads the device's rate-constant register and takes the sampling rate
    /// of the table row with that constant (see `set_rate_from_constant`).
    /// A failed bus read is returned, and nothing changes.
    pub fn read_sample_rate(&mut self) -> (r: Result<(), Error>)
        requires
            old(self).wf(),
        ensures
            final(self).wf(),
            final(self).same_samples(old(self)),
            final(self).spec_gain() == old(self).spec_gain(),
            r is Ok ==> rate_supported(final(self).spec_sampling_rate()),
            r is Err ==> final(self).spec_sampling_rate() == old(self).spec_sampling_rate(),
    {
        let mut buffer: Vec<u8> = vec![0u8; 2];
        self.bus.read(crate::bus::CONF + 0x06, buffer.as_mut_slice())?;
        let constant = codec::read_u16_le(buffer.as_slice(), 0);
        self.set_rate_from_constant(constant)
    }

    /// Sets the sampling rate: writes the table's gain for `sample_rate` to
    /// the gain register, then its rate constant to the rate register. A rate
    /// that is not in the table is refused with `InvalidInput`, and nothing
    /// is written. A failed bus write is returned; the rate is then kept as
    /// it was.
    pub fn write_sample_rate(&mut self, sample_rate: u32) -> (r: Result<(), Error>)
        requires
            old(self).wf(),
        ensures
            final(self).wf(),
            final(self).same_samples(old(self)),
            !rate_supported(sample_rate) ==> r == Err::<(), Error>(Error::InvalidInput)
                && final(self).spec_gain() == old(self).spec_gain(),
            r is Ok ==> final(self).spec_sampling_rate() == sample_rate && exists|i: int|
                0 <= i < NUM_SUPPORTED_FREQ && #[trigger] sampling_frequencies()[i].sample_rate
                    == sample_rate && sampling_frequencies()[i].gain == final(self).spec_gain(),
            r is Err ==> final(self).spec_sampling_rate() == old(self).spec_sampling_rate(),
    {
        match SampleFreq::from_rate(sample_rate) {
            None => Err(Error::InvalidInput),
            Some(f) => {
                let ghost before = *self;
                self.write_gain(f.gain)?;
                let ghost mid = *self;
                let bytes = f.constant.le_bytes();
                self.bus.write(crate::bus::CONF + 0x06, bytes.as_slice())?;
                self.sample_rate = sample_rate;
                assert forall|c: int| 0 <= c < MIC_CHANNELS implies #[trigger] self.queue(c)
                    == before.queue(c) by {
                    assert(mid.queue(c) == before.queue(c));
                }
                Ok(())
            },
        }
    }

    /// Reads the gain and the rate-constant registers, then takes both
    /// values (see `set_conf_values`): where the constant is in no table row,
    /// `InvalidInput` is returned and neither gain nor rate changes. A failed
    /// bus read is returned, and nothing changes.
    pub fn read_conf_values(&mut self) -> (r: Result<(), Error>)
        requires
            old(self).wf(),
        ensures
            final(self).wf(),
            final(self).same_samples(old(self)),
            r is Ok ==> rate_supported(final(self).spec_sampling_rate()),
            r is Err ==> final(self).spec_sampling_rate() == old(self).spec_sampling_rate()
                && final(self).spec_gain() == old(self).spec_gain(),
    {
        let mut gain_bytes: Vec<u8> = vec![0u8; 2];
        self.bus.read(crate::bus::CONF + 0x07, gain_bytes.as_mut_slice())?;
        let mut rate_bytes: Vec<u8> = vec![0u8; 2];
        self.bus.read(crate::bus::CONF + 0x06, rate_bytes.as_mut_slice())?;
        let gain = codec::read_u16_le(gain_bytes.as_slice(), 0);
        let constant = codec::read_u16_le(rate_bytes.as_slice(), 0);
        self.set_conf_values(gain, constant)
    }
}

} // verus!

verus! {

impl<'a, B: MatrixBus> MicArray<'a, B> {
    /// `self`'s delay lines are `prev`'s, each with the zero samples of its
    /// channel's delay toward a source at `distances` added.
    pub open spec fn steered_from(&self, prev: &Self, distances: Seq<u64>, sound_speed: u64) -> bool {
        forall|c: int|
            0 <= c < MIC_CHANNELS ==> #[trigger] self.queue(c) == prev.queue(c) + zeros(
                delays::delays_spec(distances, prev.spec_sampling_rate(), sound_speed)[c] as nat,
            )
    }

    /// Delays channel `c` by `delays[c]` more samples, by putting that many
    /// zero samples in its delay line. Refused with `InvalidInput`, with no
    /// delay line changed, where `delays` does not have one entry per channel
    /// or a delay line would grow past `MAX_DELAY`.
    pub fn apply_delays(&mut self, delays: &[u64]) -> (r: Result<(), Error>)
        requires
            old(self).wf(),
        ensures
            final(self).wf(),
            final(self).spec_gain() == old(self).spec_gain(),
            final(self).spec_sampling_rate() == old(self).spec_sampling_rate(),
            final(self).raw() == old(self).raw(),
            final(self).delayed() == old(self).delayed(),
            final(self).beamformed_view() == old(self).beamformed_view(),
            r is Ok <==> delays@.len() == MIC_CHANNELS && forall|c: int|
                0 <= c < MIC_CHANNELS ==> old(self).queue(c).len() + #[trigger] delays@[c]
                    <= MAX_DELAY,
            r is Ok ==> forall|c: int|
                0 <= c < MIC_CHANNELS ==> #[trigger] final(self).queue(c) == old(self).queue(c)
                    + zeros(delays@[c] as nat),
            r is Err ==> r == Err::<(), Error>(Error::InvalidInput) && final(self).same_samples(
                old(self),
            ),
    {
        if delays.len() != MIC_CHANNELS {
            return Err(Error::InvalidInput);
        }
        let mut c: usize = 0;
        while c < MIC_CHANNELS
            invariant
                self.wf(),
                delays@.len() == MIC_CHANNELS,
                c <= MIC_CHANNELS,
                forall|k: int| 0 <= k < c ==> self.queue(k).len() + #[trigger] delays@[k] <= MAX_DELAY,
            decreases MIC_CHANNELS - c,
        {
            let depth = self.fifos[c].len();
            if delays[c] > (MAX_DELAY - depth) as u64 {
                return Err(Error::InvalidInput);
            }
            c = c + 1;
        }
        let ghost q0 = Seq::new(MIC_CHANNELS as nat, |k: int| self.queue(k));
        let mut c: usize = 0;
        while c < MIC_CHANNELS
            invariant
                c <= MIC_CHANNELS,
                delays@.len() == MIC_CHANNELS,
                self.fifos@.len() == MIC_CHANNELS,
                forall|k: int| 0 <= k < MIC_CHANNELS ==> q0[k].len() + #[trigger] delays@[k] <= MAX_DELAY,
                forall|k: int|
                    0 <= k < c ==> #[trigger] delay_queue::queue_contents(self.fifos@[k]) == q0[k]
                        + zeros(delays@[k] as nat),
                forall|k: int|
                    c <= k < MIC_CHANNELS ==> #[trigger] delay_queue::queue_contents(self.fifos@[k])
                        == q0[k],
                self.raw_data@.len() == TOTAL_SAMPLES,
                self.delayed_data@.len() == TOTAL_SAMPLES,
                self.beamformed@.len() == NUM_SAMPLES,
                self.raw_data == old(self).raw_data,
                self.delayed_data == old(self).delayed_data,
                self.beamformed == old(self).beamformed,
                self.gain == old(self).gain,
                self.sample_rate == old(self).sample_rate,
            decreases MIC_CHANNELS - c,
        {
            let n = delays[c];
            let mut k: u64 = 0;
            while k < n
                invariant
                    c < MIC_CHANNELS,
                    k <= n,
                    n == delays@[c as int],
                    q0[c as int].len() + n <= MAX_DELAY,
                    self.fifos@.len() == MIC_CHANNELS,
                    delay_queue::queue_contents(self.fifos@[c as int]) == q0[c as int] + zeros(
                        k as nat,
                    ),
                    forall|j: int|
                        0 <= j < c ==> #[trigger] delay_queue::queue_contents(self.fifos@[j])
                            == q0[j] + zeros(delays@[j] as nat),
                    forall|j: int|
                        c < j < MIC_CHANNELS ==> #[trigger] delay_queue::queue_contents(
                            self.fifos@[j],
                        ) == q0[j],
                    self.raw_data == old(self).raw_data,
                    self.delayed_data == old(self).delayed_data,
                    self.beamformed == old(self).beamformed,
                    self.gain == old(self).gain,
                    self.sample_rate == old(self).sample_rate,
                decreases n - k,
            {
                let _ = self.fifos[c].enqueue(0);
                proof {
                    assert(delay_queue::queue_contents(self.fifos@[c as int]) =~= q0[c as int]
                        + zeros((k + 1) as nat));
                }
                k = k + 1;
            }
            c = c + 1;
        }
        Ok(())
    }

    /// Steers the array toward a source at `distances[c]` length units from
    /// microphone `c`, sound travelling `sound_speed` units per second: each
    /// channel is delayed by `delays_spec` samples at the current sampling
    /// rate (see `apply_delays`). A speed of zero is refused with
    /// `InvalidInput`.
    pub fn calculate_delays_from_distances(&mut self, distances: &[u64], sound_speed: u64) -> (r:
        Result<(), Error>)
        requires
            old(self).wf(),
        ensures
            final(self).wf(),
            final(self).spec_gain() == old(self).spec_gain(),
            final(self).spec_sampling_rate() == old(self).spec_sampling_rate(),
            final(self).raw() == old(self).raw(),
            final(self).delayed() == old(self).delayed(),
            final(self).beamformed_view() == old(self).beamformed_view(),
            ({
                let d = delays::delays_spec(
                    distances@,
                    old(self).spec_sampling_rate(),
                    sound_speed,
                );
                &&& r is Ok <==> sound_speed > 0 && d.len() == MIC_CHANNELS && forall|c: int|
                    0 <= c < MIC_CHANNELS ==> old(self).queue(c).len() + #[trigger] d[c]
                        <= MAX_DELAY
                &&& r is Ok ==> final(self).steered_from(old(self), distances@, sound_speed)
                &&& r is Err ==> r == Err::<(), Error>(Error::InvalidInput) && final(self).same_samples(old(self))
            }),
    {
        let d = delays::delays_from_distances(distances, self.sample_rate, sound_speed)?;
        self.apply_delays(d.as_slice())
    }
}

/// After a read cycle each channel's output is its input delayed by exactly
/// the depth of its delay line, and that depth is unchanged: for every
/// sample index `s` at or past the depth, output sample `s` is input sample
/// `s - depth`, and the earlier outputs are the samples the line held.
pub proof fn lemma_delay_shift<'a, B: MatrixBus>(prev: &MicArray<'a, B>, next: &MicArray<'a, B>)
    requires
        prev.wf(),
        next.wf(),
        next.cycle_of(prev),
    ensures
        forall|c: int|
            0 <= c < MIC_CHANNELS ==> #[trigger] next.queue(c).len() == prev.queue(c).len(),
        forall|c: int, s: int|
            0 <= c < MIC_CHANNELS && prev.queue(c).len() <= s < NUM_SAMPLES ==> #[trigger] sample_at(
                next.delayed(),
                c,
                s,
            ) == sample_at(next.raw(), c, s - prev.queue(c).len()),
        forall|c: int, s: int|
            0 <= c < MIC_CHANNELS && 0 <= s < prev.queue(c).len() ==> #[trigger] sample_at(
                next.delayed(),
                c,
                s,
            ) == prev.queue(c)[s],
{
    prev.lemma_depths();
    assert forall|c: int, s: int|
        0 <= c < MIC_CHANNELS && 0 <= s < NUM_SAMPLES implies #[trigger] sample_at(
        next.delayed(),
        c,
        s,
    ) == stream(prev.queue(c), next.raw(), c)[s] by {
        assert(block(next.delayed(), c)[s] == sample_at(next.delayed(), c, s));
    }
}

/// Steering from empty delay lines, twice, by the same distances at the
/// same sampling rate leaves the same depths, each the channel's delay; where
/// the source is as far from every microphone (straight above the array's
/// centre), both leave every delay line empty.
pub proof fn lemma_steering_repeatable<'a, B: MatrixBus>(
    prev1: &MicArray<'a, B>,
    next1: &MicArray<'a, B>,
    prev2: &MicArray<'a, B>,
    next2: &MicArray<'a, B>,
    distances: Seq<u64>,
    sound_speed: u64,
)
    requires
        sound_speed > 0,
        prev1.spec_sampling_rate() == prev2.spec_sampling_rate(),
        forall|c: int| 0 <= c < MIC_CHANNELS ==> #[trigger] prev1.queue(c) == Seq::<i16>::empty(),
        forall|c: int| 0 <= c < MIC_CHANNELS ==> #[trigger] prev2.queue(c) == Seq::<i16>::empty(),
        next1.steered_from(prev1, distances, sound_speed),
        next2.steered_from(prev2, distances, sound_speed),
    ensures
        forall|c: int|
            0 <= c < MIC_CHANNELS ==> #[trigger] next1.queue(c).len() == next2.queue(c).len()
                && next1.queue(c).len() == delays::delays_spec(
                distances,
                prev1.spec_sampling_rate(),
                sound_speed,
            )[c],
        (forall|i: int, j: int|
            0 <= i < distances.len() && 0 <= j < distances.len() ==> distances[i]
                == distances[j]) && distances.len() == MIC_CHANNELS ==> forall|c: int|
            0 <= c < MIC_CHANNELS ==> #[trigger] next1.queue(c).len() == 0,
{
    let rate = prev1.spec_sampling_rate();
    assert forall|c: int| 0 <= c < MIC_CHANNELS implies #[trigger] next1.queue(c).len()
        == next2.queue(c).len() && next1.queue(c).len() == delays::delays_spec(
        distances,
        rate,
        sound_speed,
    )[c] by {
        assert(next1.queue(c) == prev1.queue(c) + zeros(
            delays::delays_spec(distances, rate, sound_speed)[c] as nat,
        ));
        assert(next2.queue(c) == prev2.queue(c) + zeros(
            delays::delays_spec(distances, rate, sound_speed)[c] as nat,
        ));
    }
    if (forall|i: int, j: int|
        0 <= i < distances.len() && 0 <= j < distances.len() ==> distances[i] == distances[j])
        && distances.len() == MIC_CHANNELS {
        delays::lemma_equal_distances_no_delay(distances, rate, sound_speed);
    }
}

} // verus!

verus! {

proof fn lemma_channel_sum_constant(data: Seq<i16>, s: int, k: int, v: i16)
    requires
        k >= 0,
        forall|c: int| 0 <= c < k ==> #[trigger] sample_at(data, c, s) == v,
    ensures
        channel_sum(data, s, k) == k * v,
    decreases k,
{
    if k > 0 {
        lemma_channel_sum_constant(data, s, k - 1, v);
        assert(channel_sum(data, s, k) == (k - 1) * v + v);
        assert((k - 1) * v + v == k * v) by (nonlinear_arith);
    } else {
        assert(k * v == 0) by (nonlinear_arith)
            requires
                k == 0,
        ;
    }
}

/// The beam saturates instead of wrapping: where every channel's output
/// sample is `i16::MAX` the beam sample is `i16::MAX`, and where every one is
/// `i16::MIN` it is `i16::MIN`.
pub proof fn lemma_beam_saturates<'a, B: MatrixBus>(
    prev: &MicArray<'a, B>,
    next: &MicArray<'a, B>,
    s: int,
)
    requires
        next.cycle_of(prev),
        0 <= s < NUM_SAMPLES,
    ensures
        (forall|c: int| 0 <= c < MIC_CHANNELS ==> #[trigger] sample_at(next.delayed(), c, s)
            == i16::MAX) ==> next.beamformed_view()[s] == i16::MAX,
        (forall|c: int| 0 <= c < MIC_CHANNELS ==> #[trigger] sample_at(next.delayed(), c, s)
            == i16::MIN) ==> next.beamformed_view()[s] == i16::MIN,
{
    if forall|c: int| 0 <= c < MIC_CHANNELS ==> #[trigger] sample_at(next.delayed(), c, s)
        == i16::MAX {
        lemma_channel_sum_constant(next.delayed(), s, MIC_CHANNELS as int, i16::MAX);
    }
    if forall|c: int| 0 <= c < MIC_CHANNELS ==> #[trigger] sample_at(next.delayed(), c, s)
        == i16::MIN {
        lemma_channel_sum_constant(next.delayed(), s, MIC_CHANNELS as int, i16::MIN);
    }
}

} // verus!
