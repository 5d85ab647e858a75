//! Geometry and paint of the ten bars.
//!
//! The canvas is a square of `CANVAS` pixels. Bar `i` is a vertical stroke with
//! round caps whose centre line stands at `band_center(i)`. It is drawn twice:
//! first as a wide, faint black shadow, then as a narrower white highlight on
//! top of it. A band value `v` other than zero gives the stroke from
//! `CANVAS / 2 - reach * v + inset` to `CANVAS / 2 + reach * v - inset`; a band
//! value of exactly zero gives a single point at the canvas's mid-height.

use vstd::prelude::*;
use crate::analysis::BAND_COUNT;

verus! {

/// Side of the canvas, in pixels.
pub const CANVAS: u32 = 2048;

/// Free space left of the first bar and between two bars.
pub const MARGIN: u32 = CANVAS / 31;

/// Width of a bar.
pub const STROKE_RADIUS: u32 = MARGIN * 2;

/// Distance between the centre lines of two neighbouring bars.
pub const PITCH: u32 = MARGIN + STROKE_RADIUS;

/// What the shadow is wider than the bar.
pub const SHADOW_EXTRA: u32 = CANVAS / 64;

/// Height of the canvas's middle, about which every bar is symmetric.
pub const MID_HEIGHT: u32 = CANVAS / 2;

/// Half-length of a bar per unit of band value, before the inset.
pub const REACH: u32 = CANVAS / 2 - MARGIN;

/// What each end of a bar is drawn back by, leaving room for the round cap.
pub const INSET: u32 = STROKE_RADIUS;

/// A colour with 8 bits per channel.
#[derive(Clone, Copy, Debug, PartialEq, Eq, Structural)]
pub struct Rgba {
    pub red: u8,
    pub green: u8,
    pub blue: u8,
    pub alpha: u8,
}

/// One of the two times the bars are drawn.
#[derive(Clone, Copy, Debug, PartialEq, Eq, Structural)]
pub enum Pass {
    Shadow,
    Highlight,
}

/// How the end of a stroke is drawn.
#[derive(Clone, Copy, Debug, PartialEq, Eq, Structural)]
pub enum Cap {
    Butt,
    Round,
    Square,
}

/// How the strokes of one pass are painted.
#[derive(Clone, Copy, Debug, PartialEq, Eq, Structural)]
pub struct StrokeStyle {
    pub width: u32,
    pub cap: Cap,
    pub anti_alias: bool,
    pub color: Rgba,
}

/// Where the stroke of one band lies.
#[derive(Clone, Copy, Debug, PartialEq, Eq, Structural)]
pub enum BarShape {
    /// A stroke of length zero at `(x, y)`.
    Point { x: u32, y: u32 },
    /// The stroke at `x` from `middle - reach * v + inset` to
    /// `middle + reach * v - inset`, for band value `v`.
    Span { x: u32, middle: u32, reach: u32, inset: u32 },
}

impl BarShape {
    /// Heights of the two ends of the stroke, first the one it starts at, for
    /// a band of value `value`.
    pub open spec fn ends(self, value: real) -> (real, real) {
        match self {
            BarShape::Point { x, y } => (y as real, y as real),
            BarShape::Span { x, middle, reach, inset } => (
                middle as real - reach as real * value + inset as real,
                middle as real + reach as real * value - inset as real,
            ),
        }
    }
}

/// Horizontal position of the centre line of bar `band`.
pub open spec fn band_center_of(band: nat) -> nat {
    (MARGIN + band * (MARGIN + STROKE_RADIUS) + STROKE_RADIUS / 2) as nat
}

/// Paint of pass `pass`.
pub open spec fn style_of(pass: Pass) -> StrokeStyle {
    match pass {
        Pass::Shadow => StrokeStyle {
            width: (STROKE_RADIUS + CANVAS / 64) as u32,
            cap: Cap::Round,
            anti_alias: true,
            color: Rgba { red: 0, green: 0, blue: 0, alpha: 16 },
        },
        Pass::Highlight => StrokeStyle {
            width: STROKE_RADIUS,
            cap: Cap::Round,
            anti_alias: true,
            color: Rgba { red: 255, green: 255, blue: 255, alpha: 128 },
        },
    }
}

/// Shape of bar `band`, whose band value is zero or not.
pub open spec fn bar_shape_of(band: nat, zero: bool) -> BarShape {
    if zero {
        BarShape::Point { x: band_center_of(band) as u32, y: (CANVAS / 2) as u32 }
    } else {
        BarShape::Span {
            x: band_center_of(band) as u32,
            middle: (CANVAS / 2) as u32,
            reach: (CANVAS / 2 - MARGIN) as u32,
            inset: STROKE_RADIUS,
        }
    }
}

/// The passes in the order in which they are drawn.
pub fn passes() -> (order: [Pass; 2])
    ensures
        order[0] == Pass::Shadow,
        order[1] == Pass::Highlight,
{
    [Pass::Shadow, Pass::Highlight]
}

/// Paint of pass `pass`.
pub fn stroke_style(pass: Pass) -> (style: StrokeStyle)
    ensures
        style == style_of(pass),
{
    match pass {
        Pass::Shadow => StrokeStyle {
            width: STROKE_RADIUS + SHADOW_EXTRA,
            cap: Cap::Round,
            anti_alias: true,
            color: Rgba { red: 0, green: 0, blue: 0, alpha: 16 },
        },
        Pass::Highlight => StrokeStyle {
            width: STROKE_RADIUS,
            cap: Cap::Round,
            anti_alias: true,
            color: Rgba { red: 255, green: 255, blue: 255, alpha: 128 },
        },
    }
}

/// Horizontal position of the centre line of bar `band`.
pub fn band_center(band: usize) -> (x: u32)
    requires
        band < BAND_COUNT,
    ensures
        x == band_center_of(band as nat),
{
    proof {
        lemma_band_center_linear(band as nat);
    }
    MARGIN + (band as u32) * PITCH + STROKE_RADIUS / 2
}

/// Shape of bar `band`. `zero` says whether the band's value equals zero.
pub fn bar_shape(band: usize, zero: bool) -> (shape: BarShape)
    requires
        band < BAND_COUNT,
    ensures
        shape == bar_shape_of(band as nat, zero),
        zero ==> shape == (BarShape::Point { x: band_center_of(band as nat) as u32, y: 1024 }),
{
    let x = band_center(band);
    if zero {
        BarShape::Point { x, y: MID_HEIGHT }
    } else {
        BarShape::Span { x, middle: MID_HEIGHT, reach: REACH, inset: INSET }
    }
}

/// The constants have the values that the canvas's side gives them.
pub proof fn lemma_render_constants()
    ensures
        MARGIN == 66,
        STROKE_RADIUS == 132,
        PITCH == 198,
        SHADOW_EXTRA == 32,
        MID_HEIGHT == 1024,
        REACH == 958,
        style_of(Pass::Shadow).width == 164,
        style_of(Pass::Highlight).width == 132,
{
}

/// A band of value zero is drawn as a point at mid-height. The formula for the
/// other values would give a stroke there, from one inset below the middle
/// to one inset above it.
pub proof fn lemma_zero_band_is_point(band: nat)
    ensures
        bar_shape_of(band, true) is Point,
        bar_shape_of(band, true).ends(0real) == (1024real, 1024real),
        bar_shape_of(band, false) is Span,
        bar_shape_of(band, false).ends(0real) == (1156real, 892real),
{
    lemma_render_constants();
}

/// A band of value one is drawn from three margins below the top edge to
/// three margins above the bottom edge, so that the round caps of its
/// highlight end two margins from either edge.
pub proof fn lemma_unit_band_span(band: nat)
    ensures
        bar_shape_of(band, false).ends(1real) == (198real, 1850real),
        3 * MARGIN == 198,
        CANVAS - 3 * MARGIN == 1850,
        198 - style_of(Pass::Highlight).width / 2 == 2 * MARGIN,
{
    lemma_render_constants();
}

/// The centre lines stand `PITCH` apart, the first at twice the margin.
pub proof fn lemma_band_center_linear(band: nat)
    ensures
        band_center_of(band) == 132 + 198 * band,
        band * PITCH == 198 * band,
{
    lemma_render_constants();
    assert(band * (MARGIN + STROKE_RADIUS) == 198 * band) by (nonlinear_arith)
        requires
            MARGIN + STROKE_RADIUS == 198,
    ;
    assert(band * PITCH == 198 * band) by (nonlinear_arith)
        requires
            PITCH == 198,
    ;
}

/// The highlights of all bars lie side by side inside the canvas: the first
/// begins one margin from the left edge, two neighbours are one margin apart,
/// and the last ends at least one margin before the right edge. The wider
/// shadows of two neighbours do not touch either.
pub proof fn lemma_bars_side_by_side(band: nat)
    requires
        band < BAND_COUNT,
    ensures
        band_center_of(0) - STROKE_RADIUS / 2 == MARGIN,
        band + 1 < BAND_COUNT ==> (band_center_of(band + 1) - STROKE_RADIUS / 2) - (band_center_of(
            band,
        ) + STROKE_RADIUS / 2) == MARGIN,
        band_center_of(band) + STROKE_RADIUS / 2 + MARGIN <= CANVAS,
        band + 1 < BAND_COUNT ==> band_center_of(band) + style_of(Pass::Shadow).width / 2
            < band_center_of(band + 1) - style_of(Pass::Shadow).width / 2,
{
    lemma_render_constants();
    lemma_band_center_linear(0);
    lemma_band_center_linear(band);
    lemma_band_center_linear(band + 1);
}

} // verus!
