use spectral_bars::analysis::BAND_COUNT;
use spectral_bars::render::{
    band_center, bar_shape, passes, stroke_style, BarShape, Cap, Pass, Rgba, StrokeStyle, CANVAS,
    INSET, MARGIN, MID_HEIGHT, PITCH, REACH, SHADOW_EXTRA, STROKE_RADIUS,
};

#[test]
fn constants_follow_from_the_canvas() {
    assert_eq!(CANVAS, 2048);
    assert_eq!(MARGIN, 66);
    assert_eq!(STROKE_RADIUS, 132);
    assert_eq!(PITCH, 198);
    assert_eq!(SHADOW_EXTRA, 32);
    assert_eq!(MID_HEIGHT, 1024);
    assert_eq!(REACH, 958);
    assert_eq!(INSET, 132);
}

#[test]
fn shadow_is_drawn_before_highlight() {
    assert_eq!(passes(), [Pass::Shadow, Pass::Highlight]);
}

#[test]
fn shadow_is_wide_faint_and_black() {
    assert_eq!(
        stroke_style(Pass::Shadow),
        StrokeStyle {
            width: 164,
            cap: Cap::Round,
            anti_alias: true,
            color: Rgba { red: 0, green: 0, blue: 0, alpha: 16 },
        }
    );
}

#[test]
fn highlight_is_bar_wide_and_white() {
    assert_eq!(
        stroke_style(Pass::Highlight),
        StrokeStyle {
            width: 132,
            cap: Cap::Round,
            anti_alias: true,
            color: Rgba { red: 255, green: 255, blue: 255, alpha: 128 },
        }
    );
}

#[test]
fn bars_stand_one_pitch_apart() {
    let expected = [132, 330, 528, 726, 924, 1122, 1320, 1518, 1716, 1914];
    for band in 0..BAND_COUNT {
        assert_eq!(band_center(band), expected[band]);
        assert_eq!(
            band_center(band),
            MARGIN + band as u32 * (MARGIN + STROKE_RADIUS) + STROKE_RADIUS / 2
        );
    }
}

#[test]
fn bars_stay_inside_the_canvas() {
    assert_eq!(band_center(0) - STROKE_RADIUS / 2, MARGIN);
    assert!(band_center(BAND_COUNT - 1) + STROKE_RADIUS / 2 + MARGIN <= CANVAS);
}

#[test]
fn zero_band_is_a_point_at_mid_height() {
    for band in 0..BAND_COUNT {
        assert_eq!(bar_shape(band, true), BarShape::Point { x: band_center(band), y: 1024 });
    }
    assert_eq!(bar_shape(0, true), BarShape::Point { x: 132, y: 1024 });
}

#[test]
fn other_bands_span_about_mid_height() {
    for band in 0..BAND_COUNT {
        assert_eq!(
            bar_shape(band, false),
            BarShape::Span { x: band_center(band), middle: 1024, reach: 958, inset: 132 }
        );
    }
}

#[test]
fn zero_band_differs_from_the_span_at_zero() {
    let value = 0.0f32;
    match bar_shape(3, value == 0.0) {
        BarShape::Point { x, y } => {
            assert_eq!((x, y), (726, 1024));
        }
        BarShape::Span { .. } => panic!("a band of value zero must be a point"),
    }
    match bar_shape(3, false) {
        BarShape::Span { middle, reach, inset, .. } => {
            let top = middle as f32 - reach as f32 * value + inset as f32;
            let bottom = middle as f32 + reach as f32 * value - inset as f32;
            assert_eq!(top, 1156.0);
            assert_eq!(bottom, 892.0);
        }
        BarShape::Point { .. } => panic!("a band of another value must be a span"),
    }
}

#[test]
fn negative_zero_band_is_a_point_too() {
    let value = -0.0f32;
    assert_eq!(bar_shape(0, value == 0.0), BarShape::Point { x: 132, y: 1024 });
}

#[test]
fn band_that_is_not_a_number_is_a_span() {
    let value = f32::NAN;
    assert_eq!(
        bar_shape(0, value == 0.0),
        BarShape::Span { x: 132, middle: 1024, reach: 958, inset: 132 }
    );
}

#[test]
fn unit_band_ends_three_margins_from_the_edges() {
    match bar_shape(9, false) {
        BarShape::Span { x, middle, reach, inset } => {
            assert_eq!(x, 1914);
            assert_eq!(middle - reach + inset, 198);
            assert_eq!(middle + reach - inset, 1850);
        }
        BarShape::Point { .. } => panic!("a band of value one must be a span"),
    }
}
