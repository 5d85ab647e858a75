use spectral_bars::analysis::{band_window, plan_analysis, BAND_COUNT, SMOOTHED_LEN};
use spectral_bars::merge::{frame_window, merged_len};
use spectral_bars::render::{bar_shape, BarShape};
use spectral_bars::resample::{plan_resample, TARGET_RATE};

fn mean(values: &[f32]) -> f32 {
    let mut sum = 0f32;
    for v in values {
        sum += *v;
    }
    sum / values.len() as f32
}

#[test]
fn mono_silence_at_target_rate_runs_through_every_stage() {
    let pcm = vec![0f32; 96000];
    assert_eq!(plan_resample(48000, 1), None);
    let frames = merged_len(pcm.len(), 1);
    assert_eq!(frames, 96000);
    let mut mono = Vec::new();
    for frame in 0..frames {
        let w = frame_window(pcm.len(), 1, frame);
        mono.push(pcm[w.start..w.end].iter().sum::<f32>());
    }
    assert!(mono.iter().all(|v| *v == 0.0));

    let layout = plan_analysis(mono.len(), TARGET_RATE).unwrap();
    let kept = layout.kept_window();
    let magnitudes = vec![0f32; layout.spectrum_len][kept.start..kept.end].to_vec();
    assert_eq!(magnitudes.len(), 24641);
    let low = 0f32;
    let range = 0f32 - low;
    let mut smoothed = Vec::new();
    for x in 0..SMOOTHED_LEN {
        let w = layout.smoothing_window(x);
        smoothed.push((mean(&magnitudes[w.start..w.end]).log10() - low.log10()) / range.log10());
    }
    assert_eq!(smoothed.len(), 20001);
    for band in 0..BAND_COUNT {
        let w = band_window(band);
        let value = mean(&smoothed[w.start..w.end]);
        assert!(value.is_nan());
        assert!(matches!(bar_shape(band, value == 0.0), BarShape::Span { .. }));
    }
}

#[test]
fn stereo_tone_at_target_rate_is_not_resampled_and_sums_both_channels() {
    let seconds = 2;
    let mut pcm: Vec<f32> = Vec::new();
    for i in 0..seconds * 48000 {
        let phase = (i % 48) as f32 / 48.0;
        let left = (phase * 2.0 * std::f32::consts::PI).sin();
        pcm.push(left);
        pcm.push(0.5 * left);
    }
    assert_eq!(plan_resample(48000, 2), None);
    let frames = merged_len(pcm.len(), 2);
    assert_eq!(frames, 96000);
    for frame in [0usize, 1, 11, 12, 47999, 95999] {
        let w = frame_window(pcm.len(), 2, frame);
        assert_eq!((w.start, w.end), (2 * frame, 2 * frame + 2));
        let sum: f32 = 0.0 + pcm[w.start] + pcm[w.start + 1];
        assert_eq!(sum, pcm[2 * frame] + pcm[2 * frame + 1]);
    }
    assert!(plan_analysis(frames, TARGET_RATE).is_ok());
}
