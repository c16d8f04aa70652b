//! Inference preparation and the visualization feed.

use flowstt::resample::{process_recorded_audio, resample_to_16khz, RawRecordedAudio};
use flowstt::sample::convert_to_mono;
use flowstt::viz::{downsample_waveform, VisualizationProcessor};

#[test]
fn resample_48k_takes_every_third_sample() {
    let samples: Vec<i32> = (0..12).map(|i| i * 100).collect();
    let out = resample_to_16khz(&samples, 48000);
    assert_eq!(out.len(), 4);
    assert_eq!(out, vec![0, 300, 600, 900]);
}

#[test]
fn resample_16k_is_identity() {
    let samples = vec![5, -7, 9, 1000];
    assert_eq!(resample_to_16khz(&samples, 16000), samples);
}

#[test]
fn resample_interpolates_between_samples() {
    // 24 kHz to 16 kHz: output positions advance by one and a half input
    // samples, so the middle output interpolates halfway.
    let samples = vec![0, 1000, 2000, 3000];
    let out = resample_to_16khz(&samples, 24000);
    assert_eq!(out, vec![0, 1500, 3000]);
}

#[test]
fn mono_downmix_averages_pairs() {
    let stereo = vec![100, 300, -200, -400, 32768, 32768];
    let mono = convert_to_mono(&stereo, 2);
    assert_eq!(mono, vec![200, -300, 32768]);
    let already = convert_to_mono(&vec![7, 8, 9], 1);
    assert_eq!(already, vec![7, 8, 9]);
}

#[test]
fn recorded_audio_processing_composes() {
    // Stereo at 48 kHz: downmix halves the count, resampling takes a third.
    let mut samples = Vec::new();
    for i in 0..96 {
        samples.push(i * 10);
        samples.push(i * 10);
    }
    let raw = RawRecordedAudio { samples, sample_rate: 48000, channels: 2 };
    let out = process_recorded_audio(raw).unwrap();
    assert_eq!(out.len(), 32);
    assert_eq!(out[0], 0);
    assert_eq!(out[1], 30);
    assert_eq!(out[2], 60);
}

#[test]
fn waveform_peaks_keep_sign() {
    // A batch of 128 with a 64-point target: window of two, peak per pair.
    let mut samples = vec![0; 128];
    samples[10] = -3000;
    samples[11] = 100;
    samples[20] = 50;
    samples[21] = 2000;
    let wave = downsample_waveform(&samples);
    assert_eq!(wave.len(), 64);
    assert_eq!(wave[5], -3000);
    assert_eq!(wave[10], 2000);
}

#[test]
fn waveform_short_batch_passes_through() {
    let samples = vec![5, -6, 7];
    assert_eq!(downsample_waveform(&samples), samples);
}

#[test]
fn viz_fft_window_fills_and_emits() {
    let mut viz = VisualizationProcessor::new(48000, 256);
    // 384 samples: window not yet full.
    let out1 = viz.process(&vec![11; 384]);
    assert!(out1.fft_frame.is_none());
    assert_eq!(out1.waveform.len(), 64);
    // 384 more: the 512-sample window completes.
    let out2 = viz.process(&vec![22; 384]);
    let frame = out2.fft_frame.expect("window should complete");
    assert_eq!(frame.len(), 512);
    assert_eq!(frame[0], 11);
    assert_eq!(frame[383], 11);
    assert_eq!(frame[384], 22);
    assert_eq!(frame[511], 22);
}

#[test]
fn viz_metrics_attach_once() {
    let mut viz = VisualizationProcessor::new(48000, 256);
    let mut detector = flowstt::vad::SpeechDetector::new(48000);
    detector.process(&vec![0; 480]);
    viz.set_speech_metrics(detector.get_metrics());
    let out1 = viz.process(&vec![0; 480]);
    assert!(out1.speech_metrics.is_some());
    let out2 = viz.process(&vec![0; 480]);
    assert!(out2.speech_metrics.is_none());
}
