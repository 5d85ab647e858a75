//! The one rate at which signals are analysed, and when a signal must be
//! converted to it.

use vstd::prelude::*;

verus! {

/// Sample rate, in Hz, of every signal that is analysed.
pub const TARGET_RATE: u32 = 48000;

/// A conversion to ask of the resampler: interleaved samples with `channels`
/// channels, from `from_rate` to `to_rate`.
#[derive(Clone, Copy, Debug, PartialEq, Eq, Structural)]
pub struct ResampleRequest {
    pub from_rate: u32,
    pub to_rate: u32,
    pub channels: usize,
}

/// The conversion that a signal at `source_rate` needs, if any.
pub open spec fn resample_plan(source_rate: u32, channels: usize) -> Option<ResampleRequest> {
    if source_rate == TARGET_RATE {
        None
    } else {
        Some(ResampleRequest { from_rate: source_rate, to_rate: TARGET_RATE, channels })
    }
}

/// Rate of a signal recorded at `source_rate` once `plan` has been carried out.
pub open spec fn rate_after(source_rate: u32, plan: Option<ResampleRequest>) -> u32 {
    match plan {
        None => source_rate,
        Some(request) => request.to_rate,
    }
}

/// Decides whether a signal at `source_rate` is converted: it is left as it is
/// exactly when it is at `TARGET_RATE` already, and otherwise converted to
/// `TARGET_RATE` with its channel count unchanged. Either way the signal is at
/// `TARGET_RATE` afterwards.
pub fn plan_resample(source_rate: u32, channels: usize) -> (plan: Option<ResampleRequest>)
    ensures
        plan == resample_plan(source_rate, channels),
        plan is None <==> source_rate == TARGET_RATE,
        rate_after(source_rate, plan) == TARGET_RATE,
{
    if source_rate == TARGET_RATE {
        None
    } else {
        Some(ResampleRequest { from_rate: source_rate, to_rate: TARGET_RATE, channels })
    }
}

} // verus!
