use audio_pipeline::bands::{assign_bands, band_groups, reset_bands};
use audio_pipeline::window::{AudioSamples, WINDOW_SIZE};
use spectrum_analyzer::scaling::divide_by_N_sqrt;
use spectrum_analyzer::windows::hann_window;
use spectrum_analyzer::{samples_fft_to_spectrum, FrequencyLimit};

const RATE: u32 = 44100;

fn sine(freq: f32, n: usize) -> Vec<f32> {
    (0..n)
        .map(|i| (2.0 * std::f32::consts::PI * freq * i as f32 / RATE as f32).sin())
        .collect()
}

fn spectrum_of(samples: Vec<f32>) -> Vec<(f32, f32)> {
    let mut buf = AudioSamples::new();
    buf.extend_block(samples);
    let w = buf.take_window(WINDOW_SIZE).unwrap();
    let spec = samples_fft_to_spectrum(
        &hann_window(&w),
        RATE,
        FrequencyLimit::Range(20.0, 20000.0),
        Some(&divide_by_N_sqrt),
    )
    .unwrap();
    spec.data().iter().map(|(f, v)| (f.val(), v.val())).collect()
}

fn edges(num_bands: usize) -> Vec<f32> {
    (0..num_bands)
        .map(|i| 20.0f32 * (1000.0f32).powf((i as f32 + 1.0) / num_bands as f32))
        .collect()
}

fn banded(spec: &[(f32, f32)], num_bands: usize) -> Vec<f32> {
    let e = edges(num_bands);
    let ranks: Vec<usize> = spec.iter().map(|(f, _)| e.iter().filter(|x| **x < *f).count()).collect();
    let idx = assign_bands(&ranks, num_bands);
    let mut out = vec![0.0f32; num_bands];
    for (k, (_, m)) in idx.iter().zip(spec) {
        out[*k] += m;
    }
    out
}

#[test]
fn bin_goes_to_lowest_band_not_exceeded() {
    let r = assign_bands(&vec![0, 1, 1, 5, 5, 5], 3);
    assert_eq!(r, vec![0, 1, 1, 2, 2, 2]);
    let r = assign_bands(&vec![4, 4, 4, 4], 8);
    assert_eq!(r, vec![4, 4, 4, 4]);
    let r = assign_bands(&vec![0, 4], 64);
    assert_eq!(r, vec![0, 4]);
    let r = assign_bands(&vec![0, 0, 9], 1);
    assert_eq!(r, vec![0, 0, 0]);
    assert!(assign_bands(&vec![], 4).is_empty());
}

#[test]
fn dense_low_edges_do_not_lag() {
    // 64 bands at 44.1 kHz: low edges lie closer together than bins
    let rate = 44100.0f32;
    let e = edges(64);
    let freqs: Vec<f32> = (2..40).map(|k| k as f32 * rate / WINDOW_SIZE as f32).collect();
    let ranks: Vec<usize> = freqs.iter().map(|f| e.iter().filter(|x| **x < *f).count()).collect();
    let r = assign_bands(&ranks, 64);
    for (k, f) in freqs.iter().enumerate() {
        assert!(*f <= e[r[k]]);
        if r[k] > 0 {
            assert!(*f > e[r[k] - 1]);
        }
    }
}

#[test]
fn band_count_change_zero_fills() {
    let mut bins = vec![1.5f32, 2.5, 3.5];
    reset_bands(&mut bins, 5, 0.0);
    assert_eq!(bins, vec![0.0; 5]);
    let mut bins = vec![1.5f32, 2.5, 3.5];
    reset_bands(&mut bins, 2, 0.0);
    assert_eq!(bins, vec![0.0; 2]);
    let mut bins = vec![1.5f32, 2.5];
    reset_bands(&mut bins, 2, 0.0);
    assert_eq!(bins, vec![1.5, 2.5]);
    let mut bins: Vec<f32> = vec![];
    reset_bands(&mut bins, 1, 0.0);
    assert_eq!(bins, vec![0.0]);
}

#[test]
fn groups_split_into_quarters() {
    let g = band_groups(16);
    assert_eq!((g.bass, g.mid, g.treble), ((0, 4), (4, 12), (12, 16)));
    let g = band_groups(5);
    assert_eq!((g.bass, g.mid, g.treble), ((0, 1), (1, 3), (3, 5)));
    let g = band_groups(1);
    assert_eq!((g.bass, g.mid, g.treble), ((0, 0), (0, 0), (0, 1)));
}

#[test]
fn sine_peak_within_one_bin() {
    let bin_width = RATE as f32 / WINDOW_SIZE as f32;
    for f in [440.0f32, 1000.0, 5000.0] {
        let spec = spectrum_of(sine(f, WINDOW_SIZE + 100));
        let peak = spec.iter().cloned().fold((0.0f32, -1.0f32), |a, b| if b.1 > a.1 { b } else { a });
        assert!((peak.0 - f).abs() <= bin_width, "peak {} for {}", peak.0, f);
    }
}

#[test]
fn sine_band_is_loudest_of_sixteen() {
    let spec = spectrum_of(sine(440.0, WINDOW_SIZE));
    let bands = banded(&spec, 16);
    let e = edges(16);
    let home = e.iter().filter(|x| **x < 440.0).count();
    for (i, b) in bands.iter().enumerate() {
        if i != home {
            assert!(bands[home] > *b, "band {} beats band {}", i, home);
        }
    }
}
