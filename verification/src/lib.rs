//! Planning for a spectral "shape" image of an audio track.
//!
//! A track is decoded, brought to one sample rate, merged to a single channel,
//! transformed to a magnitude spectrum, condensed into ten band values and
//! drawn as ten rounded vertical bars on a square canvas.
//!
//! This crate holds every decision of that pipeline that is made on integers:
//! which samples form a frame, which bins form a window, how many values each
//! stage produces and when a signal is too short to analyse, where each bar
//! stands on the canvas and how it is painted. The sample arithmetic itself is
//! left to the caller, who reads the ranges from here.

pub mod window;
pub mod analysis;
pub mod merge;
pub mod render;
pub mod background;
pub mod resample;
pub mod decode;
pub mod cli;
