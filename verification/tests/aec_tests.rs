//! Echo cancellation wired through the mixer, against the real canceller.

use aec3::nodes::audio::AudioFormat;
use aec3::pipelines::linear;
use flowstt::mixer::{AudioMixer, AEC_FRAME_SAMPLES};
use flowstt::types::RecordingMode;

fn q15_to_f32(samples: &[i32]) -> Vec<f32> {
    samples.iter().map(|&s| s as f32 / 32768.0).collect()
}

fn f32_to_q15(samples: &[f32]) -> Vec<i32> {
    samples.iter().map(|&s| (s.clamp(-1.0, 1.0) * 32768.0) as i32).collect()
}

fn rms_q15(samples: &[i32]) -> f64 {
    if samples.is_empty() {
        return 0.0;
    }
    let sum: f64 = samples.iter().map(|&s| (s as f64) * (s as f64)).sum();
    (sum / samples.len() as f64).sqrt()
}

#[test]
fn echo_cancel_with_silent_render_keeps_capture_level() {
    // Render silence and a one-second 300 Hz tone at -20 dB on capture,
    // echo cancellation on in echo-cancel mode: the output level stays
    // within 2 dB of the capture level.
    let channels: u16 = 1;
    let format = AudioFormat::ten_ms(48000, channels);
    let mut aec = linear::builder(format, format)
        .enable_high_pass_filter(true)
        .enable_noise_suppression(false)
        .enable_gain_controller2(false)
        .enable_post_filter(false)
        .initial_delay_ms(0)
        .build()
        .expect("echo canceller should build");

    let mut mixer = AudioMixer::new();
    mixer.set_channels(channels);
    mixer.set_num_streams(2);
    mixer.set_aec_enabled(true);
    mixer.set_recording_mode(RecordingMode::EchoCancel);

    let frame = AEC_FRAME_SAMPLES * channels as usize;
    let amplitude = 0.1f32;
    let mut in_sum = 0.0f64;
    let mut in_count = 0usize;
    let mut out_frames: Vec<Vec<i32>> = Vec::new();

    for block in 0..100 {
        // Render path: silence, handed to the canceller first.
        let (_, feed) = mixer.push_samples(&vec![0; frame], true);
        for chunk in feed {
            aec.handle_render_frame(&q15_to_f32(&chunk)).expect("render frame accepted");
        }
        // Capture path: the tone.
        let mut capture = Vec::with_capacity(frame);
        for i in 0..frame {
            let t = (block * frame + i) as f32;
            let v = (2.0 * std::f32::consts::PI * 300.0 * t / 48000.0).sin() * amplitude;
            capture.push((v * 32768.0) as i32);
        }
        mixer.push_samples(&capture, false);
        while let Some((cap, ren)) = mixer.take_ready_pair() {
            let cap_f = q15_to_f32(&cap);
            let mut out_f = vec![0.0f32; cap_f.len()];
            let produced = aec
                .process_capture_frame(&cap_f, &mut out_f)
                .expect("capture frame accepted");
            if produced {
                let processed = f32_to_q15(&out_f);
                let combined = mixer.combine_chunk(&processed, &ren);
                // Measure over the second half, once the filters settled.
                if block >= 50 {
                    in_sum += rms_q15(&cap) * cap.len() as f64;
                    in_count += cap.len();
                    out_frames.push(combined.samples);
                }
            }
        }
    }

    assert!(in_count > 0, "no settled frames were produced");
    let in_rms = in_sum / in_count as f64;
    let out_all: Vec<i32> = out_frames.concat();
    let out_rms = rms_q15(&out_all);
    let ratio_db = 20.0 * (out_rms / in_rms).log10();
    assert!(
        ratio_db.abs() <= 2.0,
        "output level {:.2} dB away from capture level",
        ratio_db
    );
}
