//! Frames of an interleaved multi-channel buffer.
//!
//! A buffer of `pcm_len` samples with `channels` channels holds
//! `pcm_len / channels` whole frames; frame `f` is the samples
//! `f * channels .. (f + 1) * channels`. The merged signal has one value per
//! whole frame, the sum of that frame's samples. Samples behind the last whole
//! frame belong to no frame.

use vstd::prelude::*;
use crate::window::Window;

verus! {

/// Number of values of the merged signal.
pub open spec fn merged_len_of(pcm_len: nat, channels: nat) -> nat {
    pcm_len / channels
}

/// First and one-past-last sample of frame `frame`.
pub open spec fn frame_bounds(channels: nat, frame: nat) -> (nat, nat) {
    (frame * channels, frame * channels + channels)
}

/// Number of trailing samples that belong to no whole frame.
pub open spec fn dropped_len_of(pcm_len: nat, channels: nat) -> nat {
    pcm_len % channels
}

/// The whole frames take up a multiple of `channels` samples, and what is left
/// is less than one frame.
pub proof fn lemma_frames_cover(pcm_len: nat, channels: nat)
    requires
        channels > 0,
    ensures
        merged_len_of(pcm_len, channels) * channels + dropped_len_of(pcm_len, channels) == pcm_len,
        dropped_len_of(pcm_len, channels) < channels,
{
    vstd::arithmetic::div_mod::lemma_fundamental_div_mod(pcm_len as int, channels as int);
    vstd::arithmetic::div_mod::lemma_mod_bound(pcm_len as int, channels as int);
    assert(channels * (pcm_len / channels) == (pcm_len / channels) * channels) by (nonlinear_arith);
}

/// Every whole frame lies inside the buffer.
pub proof fn lemma_frame_in_buffer(pcm_len: nat, channels: nat, frame: nat)
    requires
        channels > 0,
        frame < merged_len_of(pcm_len, channels),
    ensures
        frame_bounds(channels, frame).1 <= pcm_len,
{
    lemma_frames_cover(pcm_len, channels);
    let frames = merged_len_of(pcm_len, channels);
    assert((frame + 1) * channels <= frames * channels) by (nonlinear_arith)
        requires
            frame + 1 <= frames,
            channels > 0,
    ;
    assert((frame + 1) * channels == frame * channels + channels) by (nonlinear_arith);
}

/// A sample lies in frame `frame` exactly when `frame` is the sample's index
/// divided by the channel count: the frames do not overlap, and together they
/// are the samples before the dropped tail.
pub proof fn lemma_frame_of_sample(channels: nat, sample: nat, frame: nat)
    requires
        channels > 0,
    ensures
        frame_bounds(channels, frame).0 <= sample < frame_bounds(channels, frame).1 <==> frame
            == sample / channels,
{
    let own = sample / channels;
    vstd::arithmetic::div_mod::lemma_fundamental_div_mod(sample as int, channels as int);
    vstd::arithmetic::div_mod::lemma_mod_bound(sample as int, channels as int);
    assert(channels * own == own * channels) by (nonlinear_arith);
    if frame < own {
        assert(frame * channels + channels <= own * channels) by (nonlinear_arith)
            requires
                frame + 1 <= own,
                channels > 0,
        ;
    } else if frame > own {
        assert(own * channels + channels <= frame * channels) by (nonlinear_arith)
            requires
                own + 1 <= frame,
                channels > 0,
        ;
    }
}

/// Number of values of the merged signal.
pub fn merged_len(pcm_len: usize, channels: usize) -> (n: usize)
    requires
        channels > 0,
    ensures
        n == merged_len_of(pcm_len as nat, channels as nat),
{
    pcm_len / channels
}

/// Number of trailing samples that are dropped.
pub fn dropped_len(pcm_len: usize, channels: usize) -> (n: usize)
    requires
        channels > 0,
    ensures
        n == dropped_len_of(pcm_len as nat, channels as nat),
        n < channels,
{
    pcm_len % channels
}

/// The samples that are summed into value `frame` of the merged signal.
pub fn frame_window(pcm_len: usize, channels: usize, frame: usize) -> (w: Window)
    requires
        channels > 0,
        frame < merged_len_of(pcm_len as nat, channels as nat),
    ensures
        w.start == frame_bounds(channels as nat, frame as nat).0,
        w.end == frame_bounds(channels as nat, frame as nat).1,
        w.len() == channels,
        w.fits(pcm_len as int),
{
    proof {
        lemma_frame_in_buffer(pcm_len as nat, channels as nat, frame as nat);
        assert(frame * channels >= 0) by (nonlinear_arith);
    }
    let start: usize = frame * channels;
    Window { start, end: start + channels }
}

} // verus!
