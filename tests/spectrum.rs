use audio_player::ring::{SampleRing, CAPTURE_CAPACITY};
use audio_player::spectrum::{
    analysis_window, band_bins, band_edge_mhz, band_levels, bin_magnitude, compress_level,
    frequency_bin, int_sqrt, Bin, SpectrumFrame, BAR_COUNT, BAR_START, FFT_SIZE, HALF_BINS,
};
use rustfft::num_complex::Complex;
use rustfft::FftPlanner;

fn quiet() -> Vec<Bin> {
    vec![Bin { re: 0, im: 0 }; HALF_BINS]
}

fn tone_bins(freq: f32, sample_rate: f32) -> Vec<Bin> {
    let n = FFT_SIZE;
    let mut buf: Vec<Complex<f32>> = (0..n)
        .map(|i| {
            let s = (2.0 * std::f32::consts::PI * freq * i as f32 / sample_rate).sin();
            let w = 0.5 * (1.0 - (2.0 * std::f32::consts::PI * i as f32 / n as f32).cos());
            Complex::new(s * w, 0.0)
        })
        .collect();
    FftPlanner::new().plan_fft_forward(n).process(&mut buf);
    buf[..HALF_BINS]
        .iter()
        .map(|c| Bin { re: (c.re * 65536.0) as i32, im: (c.im * 65536.0) as i32 })
        .collect()
}

fn argmax(v: &[u64]) -> usize {
    let mut best = 0;
    for i in 0..v.len() {
        if v[i] > v[best] {
            best = i;
        }
    }
    best
}

#[test]
fn band_edges_span_sixty_hz_to_sixteen_khz() {
    assert_eq!(band_edge_mhz(0), 60_000);
    assert_eq!(band_edge_mhz(1), 71_443);
    assert_eq!(band_edge_mhz(16), 979_795);
    assert_eq!(band_edge_mhz(31), 13_437_190);
    assert_eq!(band_edge_mhz(BAR_COUNT), 16_000_000);
}

#[test]
fn band_edges_strictly_increase() {
    for i in 0..BAR_COUNT {
        assert!(band_edge_mhz(i) < band_edge_mhz(i + 1), "edge {}", i);
    }
}

#[test]
fn bins_of_bands_at_cd_rate() {
    assert_eq!(frequency_bin(1_000_000, 44_100), 46);
    assert_eq!(band_bins(0, 44_100), (2, 3));
    assert_eq!(band_bins(1, 44_100), (3, 3));
    assert_eq!(band_bins(16, 44_100), (45, 54));
    assert_eq!(band_bins(30, 44_100), (524, 624));
    assert_eq!(band_bins(31, 44_100), (624, 743));
    for i in 0..BAR_COUNT - 1 {
        assert_eq!(band_bins(i, 44_100).1, band_bins(i + 1, 44_100).0);
    }
}

#[test]
fn bins_of_bands_at_other_rates() {
    assert_eq!(band_bins(31, 32_000), (859, 1024));
    assert_eq!(band_bins(15, 22_050), (76, 91));
    assert_eq!(band_bins(16, 22_050), (91, 108));
    assert_eq!(band_bins(30, 22_050), (1024, 1024));
}

#[test]
fn zero_sample_rate_empties_every_band() {
    for i in 0..BAR_COUNT {
        assert_eq!(band_bins(i, 0), (HALF_BINS, HALF_BINS));
    }
    assert_eq!(frequency_bin(16_000_000, 0), HALF_BINS);
    let mut f = SpectrumFrame::new();
    let mut bins = quiet();
    bins[100] = Bin { re: 5000, im: 0 };
    f.analyze(&bins, 0);
    assert!(f.bars().iter().all(|&b| b == BAR_START));
}

#[test]
fn low_sample_rate_caps_bins_at_half() {
    assert_eq!(frequency_bin(16_000_000, 8_000), HALF_BINS);
    assert_eq!(band_bins(31, 8_000).1, HALF_BINS);
}

#[test]
fn integer_square_roots() {
    assert_eq!(int_sqrt(0), 0);
    assert_eq!(int_sqrt(1), 1);
    assert_eq!(int_sqrt(15), 3);
    assert_eq!(int_sqrt(16), 4);
    assert_eq!(int_sqrt(u64::MAX), 4_294_967_295);
    assert_eq!(bin_magnitude(Bin { re: 3, im: -4 }), 5);
    assert_eq!(bin_magnitude(Bin { re: i32::MIN, im: i32::MIN }), 3_037_000_499);
}

#[test]
fn compression_lifts_quiet_levels() {
    assert_eq!(compress_level(0), 0);
    assert_eq!(compress_level(1), 7);
    assert_eq!(compress_level(100), 199);
    assert_eq!(compress_level(500), 615);
    assert_eq!(compress_level(800), 855);
    assert_eq!(compress_level(1000), 1000);
}

#[test]
fn window_needs_a_full_transform() {
    let mut r: SampleRing<f32> = SampleRing::new(CAPTURE_CAPACITY);
    for i in 0..FFT_SIZE - 1 {
        r.push(i as f32);
    }
    assert!(analysis_window(&r).is_none());
    r.push(-1.0);
    r.push(-2.0);
    let w = analysis_window(&r).unwrap();
    assert_eq!(w.len(), FFT_SIZE);
    assert_eq!(w[0], 1.0);
    assert_eq!(w[FFT_SIZE - 1], -2.0);
}

#[test]
fn single_bin_normalises_to_full_scale() {
    let mut bins = quiet();
    bins[50] = Bin { re: 0, im: 900 };
    let levels = band_levels(&bins, 44_100);
    for i in 0..BAR_COUNT {
        assert_eq!(levels[i], if i == 16 { 1000 } else { 0 }, "band {}", i);
    }
}

#[test]
fn silence_leaves_levels_at_zero() {
    let levels = band_levels(&quiet(), 44_100);
    assert!(levels.iter().all(|&l| l == 0));
}

#[test]
fn pure_tone_peaks_in_its_band() {
    for freq in [250.0f32, 1000.0, 4000.0, 12000.0] {
        let levels = band_levels(&tone_bins(freq, 44_100.0), 44_100);
        let k = argmax(&levels);
        let f_mhz = (freq * 1000.0) as u64;
        assert!(band_edge_mhz(k) <= f_mhz && f_mhz < band_edge_mhz(k + 1), "tone {} in band {}", freq, k);
        assert_eq!(levels[k], 1000);
    }
}

#[test]
fn analysis_smooths_toward_shaped_level() {
    let mut f = SpectrumFrame::new();
    let mut bins = quiet();
    bins[50] = Bin { re: 900, im: 0 };
    f.analyze(&bins, 44_100);
    let bars = f.bars();
    // band 16: (100 * 7 + compress(800) * 3) / 10 = (700 + 2565) / 10
    assert_eq!(bars[16], 326);
    // bands with bins but no energy: (100 * 7) / 10 = 70
    assert_eq!(bars[0], 70);
    // band 1 has no bins at this rate and keeps its height
    assert_eq!(bars[1], BAR_START);
}

#[test]
fn bars_stay_in_range_under_loud_input() {
    let mut f = SpectrumFrame::new();
    let bins: Vec<Bin> = (0..HALF_BINS as i32)
        .map(|i| Bin { re: i32::MAX - i, im: if i % 2 == 0 { i32::MIN } else { i * 7 } })
        .collect();
    for _ in 0..40 {
        f.analyze(&bins, 44_100);
        assert!(f.bars().iter().all(|&b| (50..=950).contains(&b)));
    }
    let quiet_bins = quiet();
    for _ in 0..40 {
        f.analyze(&quiet_bins, 96_000);
        assert!(f.bars().iter().all(|&b| (50..=950).contains(&b)));
    }
    assert!(f.bars().iter().any(|&b| b == 50));
}

#[test]
fn idle_decay_from_high_bar() {
    let mut f = SpectrumFrame::from_bars(vec![900; BAR_COUNT]).unwrap();
    f.decay();
    assert!(f.bars().iter().all(|&b| b == 810));
    for _ in 0..30 {
        f.decay();
    }
    assert!(f.bars().iter().all(|&b| b == 50));
    f.decay();
    assert!(f.bars().iter().all(|&b| b == 50));
}

#[test]
fn analysis_settles_below_shaped_peak() {
    let mut f = SpectrumFrame::new();
    let bins = vec![Bin { re: 1_000_000, im: 0 }; HALF_BINS];
    for _ in 0..60 {
        f.analyze(&bins, 44_100);
    }
    assert_eq!(f.bars()[20], 852);
    f.decay();
    assert_eq!(f.bars()[20], 766);
}

#[test]
fn frame_from_bars_checks_range_and_length() {
    assert!(SpectrumFrame::from_bars(vec![50; BAR_COUNT]).is_some());
    assert!(SpectrumFrame::from_bars(vec![950; BAR_COUNT]).is_some());
    assert!(SpectrumFrame::from_bars(vec![49; BAR_COUNT]).is_none());
    assert!(SpectrumFrame::from_bars(vec![951; BAR_COUNT]).is_none());
    assert!(SpectrumFrame::from_bars(vec![500; BAR_COUNT - 1]).is_none());
}

#[test]
fn idle_decay_reaches_floor_and_stays() {
    let mut f = SpectrumFrame::new();
    f.decay();
    assert!(f.bars().iter().all(|&b| b == 90));
    for _ in 0..30 {
        f.decay();
    }
    assert!(f.bars().iter().all(|&b| b == 50));
    f.decay();
    assert!(f.bars().iter().all(|&b| b == 50));
}

#[test]
fn tick_decays_when_idle_and_analyses_when_playing() {
    let mut f = SpectrumFrame::new();
    f.tick(false, None, 44_100);
    assert!(f.bars().iter().all(|&b| b == 90));
    f.tick(true, None, 44_100);
    assert!(f.bars().iter().all(|&b| b == 90));
    let mut bins = quiet();
    bins[50] = Bin { re: 900, im: 0 };
    f.tick(true, Some(&bins), 44_100);
    assert_eq!(f.bars()[16], (90 * 7 + 855 * 3) / 10);
}
