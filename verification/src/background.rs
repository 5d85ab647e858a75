//! The optional background: a linear gradient along one diagonal of the
//! canvas, between two colours drawn at random.

use vstd::prelude::*;
use rand::Rng;
use crate::render::{Rgba, CANVAS};

verus! {

/// Largest value of a red, green or blue channel of a background colour.
pub const CHANNEL_MAX: u8 = 235;

/// A point of the canvas, in pixels from its top left corner.
#[derive(Clone, Copy, Debug, PartialEq, Eq, Structural)]
pub struct Corner {
    pub x: u32,
    pub y: u32,
}

/// A linear gradient from colour `first` at `start` to colour `last` at `end`.
#[derive(Clone, Copy, Debug, PartialEq, Eq, Structural)]
pub struct Gradient {
    pub start: Corner,
    pub end: Corner,
    pub first: Rgba,
    pub last: Rgba,
}

/// The top left corner of the canvas.
pub open spec fn top_left() -> Corner {
    Corner { x: 0, y: 0 }
}

/// The bottom right corner of the canvas.
pub open spec fn bottom_right() -> Corner {
    Corner { x: CANVAS, y: CANVAS }
}

/// The opaque colour with the given red, green and blue.
pub open spec fn opaque(channels: (u8, u8, u8)) -> Rgba {
    Rgba { red: channels.0, green: channels.1, blue: channels.2, alpha: 255 }
}

/// Whether a colour is opaque and none of its other channels exceeds
/// `CHANNEL_MAX`.
pub open spec fn background_color(color: Rgba) -> bool {
    &&& color.red <= CHANNEL_MAX
    &&& color.green <= CHANNEL_MAX
    &&& color.blue <= CHANNEL_MAX
    &&& color.alpha == 255
}

/// The gradient that one set of draws gives: down the diagonal from the top
/// left corner if `forward`, up from the bottom right corner if not.
pub open spec fn gradient_of(forward: bool, first: (u8, u8, u8), last: (u8, u8, u8)) -> Gradient {
    Gradient {
        start: if forward { top_left() } else { bottom_right() },
        end: if forward { bottom_right() } else { top_left() },
        first: opaque(first),
        last: opaque(last),
    }
}

impl Gradient {
    /// The gradient runs along the diagonal through the top left corner, in
    /// one direction or the other, between two background colours.
    pub open spec fn wf(self) -> bool {
        &&& (self.start == top_left() && self.end == bottom_right()) || (self.start
            == bottom_right() && self.end == top_left())
        &&& background_color(self.first)
        &&& background_color(self.last)
    }
}

/// The generator of random numbers of the `rand` crate that each thread owns.
#[verifier::external_type_specification]
#[verifier::external_body]
pub struct ExThreadRng(rand::rngs::ThreadRng);

/// `rand::thread_rng` hands out the calling thread's generator. Nothing is
/// claimed of it.
pub assume_specification[ rand::thread_rng ]() -> (rng: rand::rngs::ThreadRng);

/// Calls `rand::Rng::gen` for a `bool`. Nothing is claimed of the result.
#[verifier::external_body]
fn random_flag(rng: &mut rand::rngs::ThreadRng) -> (flag: bool) {
    rng.gen()
}

/// Calls `rand::Rng::gen_range` on the range from `low` to `high`, both
/// included. The claim is that the result lies in that range. The call panics
/// on an empty range, which the precondition leaves out.
#[verifier::external_body]
fn random_between(rng: &mut rand::rngs::ThreadRng, low: u8, high: u8) -> (value: u8)
    requires
        low <= high,
    ensures
        low <= value <= high,
{
    rng.gen_range(low..=high)
}

/// The four corners of the canvas, in the order in which the background's
/// outline visits them.
pub fn canvas_outline() -> (outline: [Corner; 4])
    ensures
        outline[0] == top_left(),
        outline[1] == (Corner { x: 0, y: CANVAS }),
        outline[2] == bottom_right(),
        outline[3] == (Corner { x: CANVAS, y: 0 }),
{
    [
        Corner { x: 0, y: 0 },
        Corner { x: 0, y: CANVAS },
        Corner { x: CANVAS, y: CANVAS },
        Corner { x: CANVAS, y: 0 },
    ]
}

/// Builds the gradient from one set of draws.
pub fn gradient_from(forward: bool, first: (u8, u8, u8), last: (u8, u8, u8)) -> (gradient: Gradient)
    ensures
        gradient == gradient_of(forward, first, last),
        gradient.wf() <==> background_color(opaque(first)) && background_color(opaque(last)),
{
    let near = Corner { x: 0, y: 0 };
    let far = Corner { x: CANVAS, y: CANVAS };
    Gradient {
        start: if forward { near } else { far },
        end: if forward { far } else { near },
        first: Rgba { red: first.0, green: first.1, blue: first.2, alpha: 255 },
        last: Rgba { red: last.0, green: last.1, blue: last.2, alpha: 255 },
    }
}

/// Draws a gradient at random: first the direction, then red, green and blue
/// of the colour at the start, then those of the colour at the end.
pub fn draw_gradient() -> (gradient: Gradient)
    ensures
        gradient.wf(),
{
    let mut rng = rand::thread_rng();
    let forward = random_flag(&mut rng);
    let first_red = random_between(&mut rng, 0, CHANNEL_MAX);
    let first_green = random_between(&mut rng, 0, CHANNEL_MAX);
    let first_blue = random_between(&mut rng, 0, CHANNEL_MAX);
    let last_red = random_between(&mut rng, 0, CHANNEL_MAX);
    let last_green = random_between(&mut rng, 0, CHANNEL_MAX);
    let last_blue = random_between(&mut rng, 0, CHANNEL_MAX);
    gradient_from(
        forward,
        (first_red, first_green, first_blue),
        (last_red, last_green, last_blue),
    )
}

/// The background of one image: none if `no_background` is set, else a
/// gradient drawn at random.
pub fn background(no_background: bool) -> (gradient: Option<Gradient>)
    ensures
        gradient is None <==> no_background,
        gradient matches Some(g) ==> g.wf(),
{
    if no_background {
        None
    } else {
        Some(draw_gradient())
    }
}

} // verus!
