//! Sizes and windows of the spectral analysis.
//!
//! A signal of `n` samples is transformed into `n / 2 + 1` magnitudes. Only the
//! first `rate / 2 + 641` of them are kept. Each of the 20001 smoothed values
//! averages 640 consecutive magnitudes, and each of the ten bands averages 500
//! consecutive smoothed values.

use vstd::prelude::*;
use crate::resample::TARGET_RATE;
use crate::window::Window;

verus! {

/// Number of magnitudes averaged into one smoothed value.
pub const SMOOTHING_SPAN: usize = 640;

/// Number of smoothed values.
pub const SMOOTHED_LEN: usize = 20001;

/// Number of bands.
pub const BAND_COUNT: usize = 10;

/// Distance between the first smoothed values of two neighbouring bands.
pub const BAND_STRIDE: usize = 2000;

/// Number of smoothed values averaged into one band.
pub const BAND_SPAN: usize = 500;

/// Number of coefficients of the real-input transform of `signal_len` samples.
pub open spec fn spectrum_len_of(signal_len: nat) -> nat {
    signal_len / 2 + 1
}

/// Number of magnitudes kept at `sample_rate`: bins `0` to
/// `sample_rate / 2 + 640`, both included.
pub open spec fn kept_bins_of(sample_rate: nat) -> nat {
    sample_rate / 2 + 640 + 1
}

/// Number of magnitudes that the last smoothing window reaches.
pub open spec fn smoothing_reach() -> nat {
    20000 + 640
}

/// First and one-past-last magnitude of smoothed value `x`.
pub open spec fn smoothing_bounds(x: nat) -> (nat, nat) {
    (x, x + 640)
}

/// First and one-past-last smoothed value of band `band`.
pub open spec fn band_bounds(band: nat) -> (nat, nat) {
    (2000 * band, 500 * (4 * band + 1))
}

/// Number of coefficients of the real-input transform of `signal_len` samples.
pub fn spectrum_len(signal_len: usize) -> (n: usize)
    ensures
        n == spectrum_len_of(signal_len as nat),
{
    signal_len / 2 + 1
}

/// Number of magnitudes kept at `sample_rate`.
pub fn kept_bins(sample_rate: u32) -> (n: usize)
    ensures
        n == kept_bins_of(sample_rate as nat),
{
    let half: u32 = sample_rate / 2;
    half as usize + SMOOTHING_SPAN + 1
}

/// The smoothed values that band `band` averages.
pub fn band_window(band: usize) -> (w: Window)
    requires
        band < BAND_COUNT,
    ensures
        w.start == band_bounds(band as nat).0,
        w.end == band_bounds(band as nat).1,
        w.len() == BAND_SPAN,
        w.fits(SMOOTHED_LEN as int),
{
    Window { start: BAND_STRIDE * band, end: BAND_SPAN * (4 * band + 1) }
}

/// Sizes of the sequences of one analysis.
#[derive(Clone, Copy, Debug, PartialEq, Eq, Structural)]
pub struct AnalysisLayout {
    /// Number of samples of the merged signal.
    pub signal_len: usize,
    /// Number of coefficients that the transform yields.
    pub spectrum_len: usize,
    /// Number of leading magnitudes that are kept.
    pub kept_bins: usize,
}

/// Why a signal cannot be analysed.
#[derive(Clone, Copy, Debug, PartialEq, Eq, Structural)]
pub enum LayoutError {
    /// The transform yields `available` coefficients, fewer than the
    /// `required` magnitudes that are kept.
    SpectrumTooShort { available: usize, required: usize },
    /// Only `available` magnitudes are kept, fewer than the `required` ones
    /// that the last smoothing window reaches.
    SmoothingOutOfRange { available: usize, required: usize },
}

/// Whether a signal of `signal_len` samples at `sample_rate` can be analysed:
/// the transform yields every magnitude that is kept, and the kept magnitudes
/// cover every smoothing window.
pub open spec fn analysable(signal_len: nat, sample_rate: nat) -> bool {
    &&& kept_bins_of(sample_rate) <= spectrum_len_of(signal_len)
    &&& smoothing_reach() <= kept_bins_of(sample_rate)
}

/// What `plan_analysis` returns for a signal of `signal_len` samples at
/// `sample_rate`.
pub open spec fn analysis_plan(signal_len: usize, sample_rate: u32) -> Result<
    AnalysisLayout,
    LayoutError,
> {
    let available = spectrum_len_of(signal_len as nat);
    let kept = kept_bins_of(sample_rate as nat);
    if available < kept {
        Err(
            LayoutError::SpectrumTooShort {
                available: available as usize,
                required: kept as usize,
            },
        )
    } else if kept < smoothing_reach() {
        Err(
            LayoutError::SmoothingOutOfRange {
                available: kept as usize,
                required: smoothing_reach() as usize,
            },
        )
    } else {
        Ok(
            AnalysisLayout {
                signal_len,
                spectrum_len: available as usize,
                kept_bins: kept as usize,
            },
        )
    }
}

impl AnalysisLayout {
    /// The sizes belong to one signal, and every window of the analysis lies
    /// inside the sequence that it reads.
    pub open spec fn wf(self) -> bool {
        &&& self.spectrum_len == spectrum_len_of(self.signal_len as nat)
        &&& self.kept_bins <= self.spectrum_len
        &&& smoothing_reach() <= self.kept_bins
    }

    /// The coefficients whose magnitudes are kept.
    pub fn kept_window(&self) -> (w: Window)
        requires
            self.wf(),
        ensures
            w.start == 0,
            w.end == self.kept_bins,
            w.fits(self.spectrum_len as int),
    {
        Window { start: 0, end: self.kept_bins }
    }

    /// The magnitudes that smoothed value `x` averages.
    pub fn smoothing_window(&self, x: usize) -> (w: Window)
        requires
            self.wf(),
            x < SMOOTHED_LEN,
        ensures
            w.start == smoothing_bounds(x as nat).0,
            w.end == smoothing_bounds(x as nat).1,
            w.len() == SMOOTHING_SPAN,
            w.fits(self.kept_bins as int),
    {
        Window { start: x, end: x + SMOOTHING_SPAN }
    }
}

/// Lays out the analysis of a signal of `signal_len` samples at `sample_rate`,
/// or says which sequence would be read past its end.
pub fn plan_analysis(signal_len: usize, sample_rate: u32) -> (r: Result<AnalysisLayout, LayoutError>)
    ensures
        r == analysis_plan(signal_len, sample_rate),
        r is Ok <==> analysable(signal_len as nat, sample_rate as nat),
        r matches Ok(layout) ==> layout.wf() && layout.signal_len == signal_len
            && layout.kept_bins == kept_bins_of(sample_rate as nat),
{
    let available = spectrum_len(signal_len);
    let kept = kept_bins(sample_rate);
    let reach: usize = SMOOTHED_LEN - 1 + SMOOTHING_SPAN;
    if available < kept {
        Err(LayoutError::SpectrumTooShort { available, required: kept })
    } else if kept < reach {
        Err(LayoutError::SmoothingOutOfRange { available: kept, required: reach })
    } else {
        Ok(AnalysisLayout { signal_len, spectrum_len: available, kept_bins: kept })
    }
}

/// A lower band ends before a higher band begins: no smoothed value is
/// averaged into two bands.
pub proof fn lemma_band_windows_apart(low: nat, high: nat)
    requires
        low < high < BAND_COUNT,
    ensures
        band_bounds(low).1 <= band_bounds(high).0,
        band_bounds(low).0 < band_bounds(low).1,
{
}

/// Every band averages exactly `BAND_SPAN` smoothed values, starting at a
/// multiple of `BAND_STRIDE`, and stays among the `SMOOTHED_LEN` values.
pub proof fn lemma_band_window_shape(band: nat)
    requires
        band < BAND_COUNT,
    ensures
        band_bounds(band).0 == BAND_STRIDE * band,
        band_bounds(band).1 == band_bounds(band).0 + BAND_SPAN,
        band_bounds(band).1 <= SMOOTHED_LEN,
{
}

/// At the rate to which every signal is brought, a signal can be analysed
/// exactly when it has at least 49280 samples.
pub proof fn lemma_analysable_at_target_rate(signal_len: nat)
    ensures
        analysable(signal_len, TARGET_RATE as nat) <==> signal_len >= 49280,
{
}

/// A signal can only be analysed at 39998 Hz or more, and only if it is
/// longer than its rate by about two smoothing spans.
pub proof fn lemma_analysable_needs_rate(signal_len: nat, sample_rate: nat)
    requires
        analysable(signal_len, sample_rate),
    ensures
        sample_rate >= 39998,
        signal_len >= sample_rate - 1 + 2 * SMOOTHING_SPAN,
{
}

} // verus!
