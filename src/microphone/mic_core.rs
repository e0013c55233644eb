//! The FPGA's FIR filter stage of the microphone array.
use vstd::prelude::*;

use super::{MicArray, NUM_SUPPORTED_FREQ};
use crate::bus::MatrixBus;
use crate::codec;
use crate::Error;

verus! {

/// Number of taps of the FIR filter.
pub const NUM_FIR_TAPS: usize = 128;

/// The taps of the FIR filter, signed 16-bit fixed point.
pub type Coeffs = [i16; NUM_FIR_TAPS];

/// A set of FIR taps for one sampling rate.
pub struct FirCoeff {
    rate: u32,
    coeff: Coeffs,
}

impl FirCoeff {
    /// The taps `coeff` for the sampling rate `rate`.
    pub fn new(rate: u32, coeff: Coeffs) -> (r: FirCoeff)
        ensures
            r.spec_rate() == rate,
            r.spec_coeff() == coeff@,
    {
        FirCoeff { rate, coeff }
    }

    pub closed spec fn spec_rate(&self) -> u32 {
        self.rate
    }

    pub closed spec fn spec_coeff(&self) -> Seq<i16> {
        self.coeff@
    }
}

/// The index of the first row of `table` for `rate`, if there is one.
pub open spec fn first_row_for(table: Seq<FirCoeff>, rate: u32) -> Option<int> {
    if exists|i: int| 0 <= i < table.len() && #[trigger] table[i].spec_rate() == rate {
        let i = choose|i: int|
            0 <= i < table.len() && #[trigger] table[i].spec_rate() == rate && forall|j: int|
                0 <= j < i ==> #[trigger] table[j].spec_rate() != rate;
        Some(i)
    } else {
        None
    }
}

/// The FIR filter stage of a microphone array.
pub struct MicCore<'a, B: MatrixBus> {
    mics: &'a MicArray<'a, B>,
    fir_coeff: Coeffs,
}

impl<'a, B: MatrixBus> MicCore<'a, B> {
    /// The taps this stage holds, last pushed to the FPGA.
    pub closed spec fn spec_fir_coeff(&self) -> Seq<i16> {
        self.fir_coeff@
    }

    /// The microphone array this stage filters for.
    pub closed spec fn spec_mics(&self) -> &'a MicArray<'a, B> {
        self.mics
    }

    /// A filter stage for `mics`, holding the taps of the first row of
    /// `coeffs` for the array's sampling rate, which must be non-zero and
    /// have a row. The taps are pushed to the FPGA; where that write fails
    /// they are still held, and `set_fir_coeff` pushes them again.
    pub fn new(mics: &'a MicArray<'a, B>, coeffs: &[FirCoeff; NUM_SUPPORTED_FREQ]) -> (r: Self)
        requires
            mics.spec_sampling_rate() != 0,
            first_row_for(coeffs@, mics.spec_sampling_rate()) is Some,
        ensures
            r.spec_mics() == mics,
            r.spec_fir_coeff() == coeffs@[first_row_for(coeffs@, mics.spec_sampling_rate())->0].spec_coeff(),
    {
        let i = find_row(coeffs, mics.sampling_rate());
        let core = MicCore { mics, fir_coeff: coeffs[i.unwrap()].coeff };
        let _ = core.set_fir_coeff();
        core
    }

    /// Pushes the held taps to the FPGA, as one write of their little-endian
    /// bytes to the microphone array's address; a failed write is returned.
    pub fn set_fir_coeff(&self) -> (r: Result<(), Error>) {
        self.push(&self.fir_coeff)
    }

    fn push(&self, coeff: &Coeffs) -> (r: Result<(), Error>) {
        let bytes = codec::as_bytes(coeff.as_slice());
        self.mics.bus().write(crate::bus::MICROPHONE_ARRAY, bytes.as_slice())
    }

    /// Pushes `custom_fir` to the FPGA, whatever the sampling rate, and
    /// holds it. Where the write fails, its error is returned and the taps
    /// held stay as they were.
    pub fn set_custom_fir_coeff(&mut self, custom_fir: Coeffs) -> (r: Result<(), Error>)
        ensures
            r is Ok ==> final(self).spec_fir_coeff() == custom_fir@,
            r is Err ==> final(self).spec_fir_coeff() == old(self).spec_fir_coeff(),
            final(self).spec_mics() == old(self).spec_mics(),
    {
        self.push(&custom_fir)?;
        self.fir_coeff = custom_fir;
        Ok(())
    }

    /// Takes the first row of `coeffs` whose rate is the array's sampling
    /// rate, pushes its taps to the FPGA and holds them. Where the rate is
    /// zero or no row has it, `InvalidInput` is returned and nothing is
    /// written. Where the write fails, its error is returned. The taps held
    /// change only on success.
    pub fn select_fir_coeff(&mut self, coeffs: &[FirCoeff; NUM_SUPPORTED_FREQ]) -> (r: Result<
        (),
        Error,
    >)
        ensures
            final(self).spec_mics() == old(self).spec_mics(),
            ({
                let rate = old(self).spec_mics().spec_sampling_rate();
                let row = first_row_for(coeffs@, rate);
                &&& rate == 0 || row is None ==> r == Err::<(), Error>(Error::InvalidInput)
                &&& r is Ok ==> rate != 0 && row is Some && final(self).spec_fir_coeff()
                    == coeffs@[row->0].spec_coeff()
                &&& r is Err ==> final(self).spec_fir_coeff() == old(self).spec_fir_coeff()
            }),
    {
        let sampling_rate = self.mics.sampling_rate();
        if sampling_rate == 0 {
            return Err(Error::InvalidInput);
        }
        match find_row(coeffs, sampling_rate) {
            None => Err(Error::InvalidInput),
            Some(i) => {
                self.push(&coeffs[i].coeff)?;
                self.fir_coeff = coeffs[i].coeff;
                Ok(())
            },
        }
    }
}

/// The index of the first row of `coeffs` for `rate`, if there is one.
pub fn find_row(coeffs: &[FirCoeff; NUM_SUPPORTED_FREQ], rate: u32) -> (r: Option<usize>)
    ensures
        r is None <==> first_row_for(coeffs@, rate) is None,
        r matches Some(i) ==> first_row_for(coeffs@, rate) == Some(i as int) && i < NUM_SUPPORTED_FREQ,
{
    let mut i: usize = 0;
    while i < NUM_SUPPORTED_FREQ
        invariant
            i <= NUM_SUPPORTED_FREQ,
            coeffs@.len() == NUM_SUPPORTED_FREQ,
            forall|j: int| 0 <= j < i ==> #[trigger] coeffs@[j].spec_rate() != rate,
        decreases NUM_SUPPORTED_FREQ - i,
    {
        if coeffs[i].rate == rate {
            proof {
                // row `i` is the first for the rate, so it is the row chosen
                let ii = i as int;
                assert(coeffs@[ii].spec_rate() == rate && forall|j: int|
                    0 <= j < ii ==> #[trigger] coeffs@[j].spec_rate() != rate);
                let k = first_row_for(coeffs@, rate)->0;
                assert(k == ii) by {
                    if k < ii {
                        assert(coeffs@[k].spec_rate() != rate);
                    }
                }
            }
            return Some(i);
        }
        i = i + 1;
    }
    None
}

} // verus!
