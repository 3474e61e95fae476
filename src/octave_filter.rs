//! A six-band octave equaliser: one biquad section per band, each scaled by
//! its own gain, summed with saturation.
use crate::adsr::{amplitude_of, linear_amplitude};
use crate::fixed_point::{clamp16, q15_mul_spec, Q15};
use crate::kernel::{
    biquad_out, biquad_state_after, BiquadCascadeDf1StateQ15, BiquadCoefficients, CmsisOperations,
};
use crate::tables::OCTAVE_FILTER_COEFFS;
use vstd::prelude::*;

verus! {

/// The number of bands.
pub const BAND_COUNT: usize = 6;

/// The post-shift that undoes the one-bit pre-shift of the coefficients.
pub const OCTAVE_FILTER_POST_SHIFT: u32 = 1;

/// The Q15 gain of a 0-255 setting: its linear amplitude narrowed to Q15.
pub open spec fn gain_of(setting: u8) -> i16 {
    (amplitude_of(setting) as int / 0x1_0000) as i16
}

/// The coefficients of band `band`.
pub open spec fn band_coefficients(band: int) -> BiquadCoefficients {
    BiquadCoefficients {
        b0: OCTAVE_FILTER_COEFFS@[6 * band],
        b1: OCTAVE_FILTER_COEFFS@[6 * band + 2],
        b2: OCTAVE_FILTER_COEFFS@[6 * band + 3],
        a1: OCTAVE_FILTER_COEFFS@[6 * band + 4],
        a2: OCTAVE_FILTER_COEFFS@[6 * band + 5],
    }
}

/// The filtered sample `i` of band `band` run from history `s` over `input`.
pub open spec fn band_sample(s: BiquadCascadeDf1StateQ15, band: int, input: Seq<Q15>, i: int) -> int {
    biquad_out(
        biquad_state_after(s, band_coefficients(band), 1, input.take(i)),
        band_coefficients(band),
        1,
        input[i].bits as int,
    )
}

/// The saturating sum over the first `n` bands of each band's sample `i` times its gain.
pub open spec fn mixed_bands(
    states: Seq<BiquadCascadeDf1StateQ15>,
    gains: Seq<Q15>,
    input: Seq<Q15>,
    n: int,
    i: int,
) -> int
    decreases n,
{
    if n <= 0 {
        0
    } else {
        clamp16(
            mixed_bands(states, gains, input, n - 1, i) + q15_mul_spec(
                band_sample(states[n - 1], n - 1, input, i),
                gains[n - 1].bits as int,
            ),
        )
    }
}

/// Six band filters with their histories and gains.
#[derive(Clone, Copy, Debug)]
pub struct OctaveFilterBank {
    pub states: [BiquadCascadeDf1StateQ15; 6],
    pub band_gains: [Q15; 6],
}

impl OctaveFilterBank {
    /// Gains are non-negative.
    pub open spec fn wf(&self) -> bool {
        forall|b: int| 0 <= b < 6 ==> self.band_gains@[b].bits >= 0
    }

    /// Zero histories and every gain at the setting 200.
    pub fn new() -> (r: OctaveFilterBank)
        ensures
            r.wf(),
            forall|b: int|
                0 <= b < 6 ==> r.states@[b] == (BiquadCascadeDf1StateQ15 { x1: 0, x2: 0, y1: 0, y2: 0 })
                    && r.band_gains@[b].bits == gain_of(200),
    {
        let amplitude = linear_amplitude(200);
        let default_gain = Q15 { bits: (amplitude / 0x1_0000) as i16 };
        OctaveFilterBank {
            states: [BiquadCascadeDf1StateQ15 { x1: 0, x2: 0, y1: 0, y2: 0 };6],
            band_gains: [default_gain;6],
        }
    }

    /// Sets the gain of one band from a 0-255 setting, effective on the next `process`.
    pub fn set_band_gain(&mut self, band: usize, encoder_value: u8)
        requires
            band < 6,
        ensures
            final(self).states == old(self).states,
            final(self).band_gains@ == old(self).band_gains@.update(
                band as int,
                Q15 { bits: gain_of(encoder_value) },
            ),
            old(self).wf() ==> final(self).wf(),
    {
        let amplitude = linear_amplitude(encoder_value);
        self.band_gains[band] = Q15 { bits: (amplitude / 0x1_0000) as i16 };
    }

    /// The coefficients of one band.
    fn coefficients(band: usize) -> (r: BiquadCoefficients)
        requires
            band < 6,
        ensures
            r == band_coefficients(band as int),
    {
        BiquadCoefficients {
            b0: OCTAVE_FILTER_COEFFS[6 * band],
            b1: OCTAVE_FILTER_COEFFS[6 * band + 2],
            b2: OCTAVE_FILTER_COEFFS[6 * band + 3],
            a1: OCTAVE_FILTER_COEFFS[6 * band + 4],
            a2: OCTAVE_FILTER_COEFFS[6 * band + 5],
        }
    }

    /// Runs band `band_index` over `input`, writing its unscaled output.
    pub fn process_one_band<T: CmsisOperations, const WINDOW_SIZE: usize>(
        &mut self,
        input: &[Q15; WINDOW_SIZE],
        output: &mut [Q15; WINDOW_SIZE],
        band_index: usize,
    )
        requires
            band_index < 6,
        ensures
            final(self).band_gains == old(self).band_gains,
            final(self).states@ == old(self).states@.update(
                band_index as int,
                biquad_state_after(
                    old(self).states@[band_index as int],
                    band_coefficients(band_index as int),
                    1,
                    input@,
                ),
            ),
            forall|i: int|
                0 <= i < WINDOW_SIZE ==> (#[trigger] final(output)@[i]).bits == band_sample(
                    old(self).states@[band_index as int],
                    band_index as int,
                    input@,
                    i,
                ),
    {
        let mut state = self.states[band_index];
        T::biquad_df1_q15(
            &mut state,
            Self::coefficients(band_index),
            OCTAVE_FILTER_POST_SHIFT,
            input,
            output,
        );
        self.states[band_index] = state;
    }

    /// Filters `input` through all six bands, scales each by its gain and
    /// writes the saturating sum to `output`.
    pub fn process<T: CmsisOperations, const WINDOW_SIZE: usize>(
        &mut self,
        input: &[Q15; WINDOW_SIZE],
        output: &mut [Q15; WINDOW_SIZE],
    )
        requires
            old(self).wf(),
        ensures
            final(self).wf(),
            final(self).band_gains == old(self).band_gains,
            forall|b: int|
                0 <= b < 6 ==> #[trigger] final(self).states@[b] == biquad_state_after(
                    old(self).states@[b],
                    band_coefficients(b),
                    1,
                    input@,
                ),
            forall|i: int|
                0 <= i < WINDOW_SIZE ==> (#[trigger] final(output)@[i]).bits == mixed_bands(
                    old(self).states@,
                    old(self).band_gains@,
                    input@,
                    6,
                    i,
                ),
    {
        let mut filtered = [Q15 { bits: 0 };WINDOW_SIZE];
        let mut scaled = [Q15 { bits: 0 };WINDOW_SIZE];
        let ghost states0 = self.states@;
        let mut k: usize = 0;
        while k < WINDOW_SIZE
            invariant
                k <= WINDOW_SIZE,
                output@.len() == WINDOW_SIZE,
                forall|i: int| 0 <= i < k ==> (#[trigger] output@[i]).bits == 0,
            decreases WINDOW_SIZE - k,
        {
            output[k] = Q15 { bits: 0 };
            k = k + 1;
        }
        let mut band: usize = 0;
        while band < 6
            invariant
                band <= 6,
                self.wf(),
                self.band_gains == old(self).band_gains,
                states0 == old(self).states@,
                forall|b: int|
                    0 <= b < band ==> #[trigger] self.states@[b] == biquad_state_after(
                        states0[b],
                        band_coefficients(b),
                        1,
                        input@,
                    ),
                forall|b: int| band <= b < 6 ==> #[trigger] self.states@[b] == states0[b],
                forall|i: int|
                    0 <= i < WINDOW_SIZE ==> (#[trigger] output@[i]).bits == mixed_bands(
                        states0,
                        self.band_gains@,
                        input@,
                        band as int,
                        i,
                    ),
            decreases 6 - band,
        {
            self.process_one_band::<T, WINDOW_SIZE>(input, &mut filtered, band);
            let gain_array = [self.band_gains[band];WINDOW_SIZE];
            T::multiply_q15(&filtered, &gain_array, &mut scaled);
            let previous = *output;
            T::add_q15(&previous, &scaled, output);
            band = band + 1;
        }
    }
}

impl Default for OctaveFilterBank {
    fn default() -> (r: OctaveFilterBank)
        ensures
            r.wf(),
            forall|b: int|
                0 <= b < 6 ==> r.states@[b] == (BiquadCascadeDf1StateQ15 { x1: 0, x2: 0, y1: 0, y2: 0 })
                    && r.band_gains@[b].bits == gain_of(200),
    {
        OctaveFilterBank::new()
    }
}

} // verus!
