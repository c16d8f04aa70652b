//! Mixer routing, ordering, combination, and the soft clip.

use flowstt::mixer::{apply_aec_output, soft_clip, AudioMixer, AEC_FRAME_SAMPLES};
use flowstt::types::RecordingMode;

fn sine_q15(freq: f32, rate: f32, amplitude: f32, len: usize) -> Vec<i32> {
    let mut out = Vec::with_capacity(len);
    for i in 0..len {
        let v = (2.0 * std::f32::consts::PI * freq * i as f32 / rate).sin() * amplitude;
        out.push((v * 32768.0) as i32);
    }
    out
}

#[test]
fn mixer_single_stream_pass_through() {
    let mut mixer = AudioMixer::new();
    mixer.set_num_streams(1);
    let samples = sine_q15(440.0, 48000.0, 0.5, 960);
    let (frames, feed) = mixer.push_samples(&samples, false);
    assert_eq!(frames.len(), 1);
    assert_eq!(frames[0].samples, samples);
    assert_eq!(frames[0].channels, 2);
    assert!(feed.is_empty());
}

#[test]
fn mixer_zero_streams_drops_frames() {
    let mut mixer = AudioMixer::new();
    let samples = vec![100, -100, 200];
    let (frames, feed) = mixer.push_samples(&samples, false);
    assert!(frames.is_empty());
    assert!(feed.is_empty());
}

#[test]
fn mixer_one_second_stereo_in_order() {
    // One second of 48 kHz stereo through a single stream arrives
    // downstream complete and in order.
    let mut mixer = AudioMixer::new();
    mixer.set_num_streams(1);
    let total = sine_q15(440.0, 48000.0, 0.5, 96000);
    let mut received: Vec<i32> = Vec::new();
    for chunk in total.chunks(960) {
        let (frames, _) = mixer.push_samples(&chunk.to_vec(), false);
        for f in frames {
            received.extend_from_slice(&f.samples);
        }
    }
    assert_eq!(received.len(), 96000);
    assert_eq!(received, total);
}

#[test]
fn mixer_render_chunks_precede_capture_pairs() {
    let mut mixer = AudioMixer::new();
    mixer.set_num_streams(2);
    let frame = AEC_FRAME_SAMPLES * 2;
    // Capture arrives first: nothing can be paired yet.
    let capture = vec![1000; frame];
    let (frames, feed) = mixer.push_samples(&capture, false);
    assert!(frames.is_empty());
    assert!(feed.is_empty());
    assert!(mixer.take_ready_pair().is_none());
    // A render frame arrives: it is handed out for the canceller at once,
    // and only then does the capture chunk pair up.
    let render = vec![-500; frame];
    let (frames2, feed2) = mixer.push_samples(&render, true);
    assert!(frames2.is_empty());
    assert_eq!(feed2.len(), 1);
    assert_eq!(feed2[0], render);
    let pair = mixer.take_ready_pair().expect("pair must be ready");
    assert_eq!(pair.0, capture);
    assert_eq!(pair.1, render);
    assert!(mixer.take_ready_pair().is_none());
}

#[test]
fn mixer_partial_render_chunks_buffered() {
    let mut mixer = AudioMixer::new();
    mixer.set_num_streams(2);
    let frame = AEC_FRAME_SAMPLES * 2;
    let (_, feed) = mixer.push_samples(&vec![7; frame / 2], true);
    assert!(feed.is_empty());
    let (_, feed2) = mixer.push_samples(&vec![8; frame], true);
    assert_eq!(feed2.len(), 1);
    assert_eq!(feed2[0].len(), frame);
    assert_eq!(&feed2[0][..frame / 2], &vec![7; frame / 2][..]);
}

#[test]
fn mixer_mode_selection_identical_streams() {
    // With AEC disabled and both streams carrying the identical signal,
    // the mixed output equals the input, and so does the echo-cancel
    // output.
    let mut mixer = AudioMixer::new();
    mixer.set_num_streams(2);
    mixer.set_aec_enabled(false);
    let frame = AEC_FRAME_SAMPLES * 2;
    let signal = sine_q15(440.0, 48000.0, 0.25, frame);

    mixer.set_recording_mode(RecordingMode::Mixed);
    let mixed = mixer.combine_chunk(&signal, &signal);
    assert_eq!(mixed.samples, signal);

    mixer.set_recording_mode(RecordingMode::EchoCancel);
    let cancel = mixer.combine_chunk(&signal, &signal);
    assert_eq!(cancel.samples, signal);
}

#[test]
fn mixer_mixed_mode_halves_sum() {
    let mut mixer = AudioMixer::new();
    mixer.set_num_streams(2);
    mixer.set_aec_enabled(false);
    mixer.set_recording_mode(RecordingMode::Mixed);
    let a = vec![1000, -1000, 2000, 0];
    let b = vec![3000, -500, -2000, 601];
    let out = mixer.combine_chunk(&a, &b);
    assert_eq!(out.samples, vec![2000, -750, 0, 300]);
}

#[test]
fn soft_clip_identity_within_full_scale() {
    assert_eq!(soft_clip(0), 0);
    assert_eq!(soft_clip(32768), 32768);
    assert_eq!(soft_clip(-32768), -32768);
    assert_eq!(soft_clip(12345), 12345);
    assert_eq!(soft_clip(-1), -1);
}

#[test]
fn soft_clip_compresses_beyond_full_scale() {
    // At twice full scale the clip is 1 - e^(-2)/2 of full scale; with the
    // fixed-point exponential that is exactly 30551.
    assert_eq!(soft_clip(65536), 30551);
    assert_eq!(soft_clip(-65536), -30551);
    // At one and a half of full scale: 1 - e^(-1)/2, exactly 26741.
    assert_eq!(soft_clip(49152), 26741);
    // Clipped values stay within full scale and above half scale.
    for x in [32769, 40000, 50000, 60000, 65536] {
        let y = soft_clip(x);
        assert!(y > 16384 && y <= 32768);
        assert_eq!(soft_clip(-x), -y);
    }
}

#[test]
fn mixer_drop_held_capture_clears_backlog() {
    let mut mixer = AudioMixer::new();
    mixer.set_num_streams(2);
    let frame = AEC_FRAME_SAMPLES * 2;
    mixer.push_samples(&vec![9; 3 * frame], false);
    mixer.drop_held_capture();
    // Render arrives, but there is no held capture left to pair.
    mixer.push_samples(&vec![1; frame], true);
    assert!(mixer.take_ready_pair().is_none());
}

#[test]
fn aec_output_substitution() {
    let capture = vec![100, 200, -300, 400];
    let processed = vec![10, 20, -30, 40];
    // With a canceller verdict, its output is used.
    assert_eq!(apply_aec_output(capture.clone(), Some(processed.clone())), processed);
    // Without one — failure, warm-up, or cancellation off — the raw
    // capture chunk is substituted.
    assert_eq!(apply_aec_output(capture.clone(), None), capture);
}

#[test]
fn mixer_set_channels_clears_buffers() {
    let mut mixer = AudioMixer::new();
    mixer.set_num_streams(2);
    mixer.push_samples(&vec![5; AEC_FRAME_SAMPLES * 2], false);
    mixer.push_samples(&vec![6; AEC_FRAME_SAMPLES * 2], true);
    mixer.set_channels(1);
    // No stale pair survives a channel-count change.
    assert!(mixer.take_ready_pair().is_none());
}
