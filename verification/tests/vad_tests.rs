//! Speech detector behavior: hysteresis, transient rejection, lookback,
//! and word breaks.

use flowstt::features::extract_features;
use flowstt::vad::{SpeechDetector, SpeechStateChange};

fn voiced_wave(phase_start: usize, len: usize) -> Vec<i32> {
    // A 440 Hz tone at roughly -30 dB: well inside the voiced ranges for
    // amplitude, zero-crossing rate, and centroid.
    let mut out = Vec::with_capacity(len);
    for i in 0..len {
        let t = (phase_start + i) as f32;
        let v = (2.0 * std::f32::consts::PI * 440.0 * t / 48000.0).sin() * 0.0316;
        out.push((v * 32768.0) as i32);
    }
    out
}

fn impulse_frame(len: usize) -> Vec<i32> {
    // Alternating full-swing values: zero-crossing rate near one and a
    // centroid at the sample rate, the signature of a click.
    let mut out = Vec::with_capacity(len);
    for i in 0..len {
        out.push(if i % 2 == 0 { 16384 } else { -16384 });
    }
    out
}

fn lookback_noise(len: usize) -> Vec<i32> {
    // Alternating-sign values between the lookback floor and twice the
    // floor: every scan chunk peaks above the floor, but the frame is too
    // quiet and too impulsive to match a speech mode.
    let mut out = Vec::with_capacity(len);
    for i in 0..len {
        let magnitude = 58 + (i % 60) as i32;
        out.push(if i % 2 == 0 { magnitude } else { -magnitude });
    }
    out
}

#[test]
fn features_of_constant_frame() {
    let f = extract_features(&vec![32768; 480], 48000);
    assert_eq!(f.rms_q15, 32768);
    assert_eq!(f.crossings, 0);
    assert_eq!(f.len, 480);
}

#[test]
fn features_of_alternating_frame() {
    let f = extract_features(&impulse_frame(480), 48000);
    assert_eq!(f.crossings, 479);
    assert_eq!(f.rms_q15, 16384);
    assert_eq!(f.centroid_hz, 48000);
}

#[test]
fn vad_hysteresis_one_started_one_ended() {
    let mut vad = SpeechDetector::new(48000);
    let mut started = 0;
    let mut ended = 0;
    let mut ended_duration: u64 = 0;
    let mut phase = 0;
    // Leading silence, including the initialization frame.
    for _ in 0..5 {
        vad.process(&vec![0; 480]);
        assert!(matches!(vad.take_state_change(), SpeechStateChange::NoChange));
    }
    // An 80 ms burst matching voiced features.
    for _ in 0..8 {
        vad.process(&voiced_wave(phase, 480));
        phase += 480;
        match vad.take_state_change() {
            SpeechStateChange::Started { .. } => started += 1,
            SpeechStateChange::Ended { .. } => ended += 1,
            SpeechStateChange::NoChange => {},
        }
    }
    assert_eq!(started, 1);
    assert_eq!(ended, 0);
    assert!(vad.is_speaking);
    // 300 ms of silence ends the speech exactly once.
    for _ in 0..32 {
        vad.process(&vec![0; 480]);
        match vad.take_state_change() {
            SpeechStateChange::Started { .. } => started += 1,
            SpeechStateChange::Ended { duration_ms } => {
                ended += 1;
                ended_duration = duration_ms;
            },
            SpeechStateChange::NoChange => {},
        }
    }
    assert_eq!(started, 1);
    assert_eq!(ended, 1);
    assert!(!vad.is_speaking);
    assert!(ended_duration >= 80 && ended_duration <= 100);
}

#[test]
fn vad_transient_never_starts_speech() {
    let mut vad = SpeechDetector::new(48000);
    vad.process(&vec![0; 480]);
    // A loud 10 ms impulse with high zero-crossing rate and centroid.
    for _ in 0..30 {
        vad.process(&impulse_frame(480));
        assert!(matches!(vad.take_state_change(), SpeechStateChange::NoChange));
        assert!(!vad.is_speaking);
        assert!(vad.last_is_transient);
    }
}

#[test]
fn vad_transient_resets_pending_onset() {
    let mut vad = SpeechDetector::new(48000);
    vad.process(&vec![0; 480]);
    // 40 ms of voiced onset, not yet confirmed.
    let mut phase = 0;
    for _ in 0..4 {
        vad.process(&voiced_wave(phase, 480));
        phase += 480;
    }
    assert!(vad.is_pending_voiced);
    vad.process(&impulse_frame(480));
    assert!(!vad.is_pending_voiced);
    assert_eq!(vad.voiced_onset_count, 0);
}

#[test]
fn vad_lookback_covers_quiet_leadin() {
    let mut vad = SpeechDetector::new(48000);
    vad.process(&vec![0; 480]);
    // 150 ms of sub-threshold noise above the lookback floor.
    for _ in 0..15 {
        vad.process(&lookback_noise(480));
        assert!(matches!(vad.take_state_change(), SpeechStateChange::NoChange));
    }
    // 80 ms of voiced energy confirms speech.
    let mut phase = 0;
    let mut lookback: usize = 0;
    for _ in 0..8 {
        vad.process(&voiced_wave(phase, 480));
        phase += 480;
        if let SpeechStateChange::Started { lookback_samples } = vad.take_state_change() {
            lookback = lookback_samples;
        }
    }
    assert!(vad.is_speaking);
    // The lookback covers at least 150 ms and at most the 200 ms ring.
    assert!(lookback >= 7200, "lookback {} too short", lookback);
    assert!(lookback <= 9600, "lookback {} too long", lookback);
}

#[test]
fn vad_word_break_in_range() {
    let mut vad = SpeechDetector::new(48000);
    vad.process(&vec![0; 480]);
    let mut phase = 0;
    // Confirm speech and keep voicing for half a second.
    for _ in 0..50 {
        vad.process(&voiced_wave(phase, 480));
        phase += 480;
        vad.take_state_change();
    }
    assert!(vad.is_speaking);
    // A 60 ms quiet gap, then voicing resumes.
    for _ in 0..6 {
        vad.process(&vec![0; 480]);
        assert!(vad.take_word_break_event().is_none());
    }
    vad.process(&voiced_wave(phase, 480));
    let event = vad.take_word_break_event().expect("word break expected");
    assert!(
        event.gap_duration_ms >= 45 && event.gap_duration_ms <= 75,
        "gap {} out of range",
        event.gap_duration_ms
    );
}

#[test]
fn vad_noise_speech_silence_sequence() {
    // Noise, then half a second of voiced tone, then silence: one start
    // with lookback, one end with a duration near half a second.
    let mut vad = SpeechDetector::new(48000);
    let mut events: Vec<SpeechStateChange> = Vec::new();
    for _ in 0..300 {
        vad.process(&lookback_noise(480));
        match vad.take_state_change() {
            SpeechStateChange::NoChange => {},
            other => events.push(other),
        }
    }
    let mut phase = 0;
    for _ in 0..50 {
        vad.process(&voiced_wave(phase, 480));
        phase += 480;
        match vad.take_state_change() {
            SpeechStateChange::NoChange => {},
            other => events.push(other),
        }
    }
    for _ in 0..100 {
        vad.process(&vec![0; 480]);
        match vad.take_state_change() {
            SpeechStateChange::NoChange => {},
            other => events.push(other),
        }
    }
    assert_eq!(events.len(), 2);
    match events[0] {
        SpeechStateChange::Started { lookback_samples } => assert!(lookback_samples > 0),
        _ => panic!("expected a start first"),
    }
    match events[1] {
        SpeechStateChange::Ended { duration_ms } => {
            assert!(duration_ms >= 400 && duration_ms <= 600, "duration {}", duration_ms);
        },
        _ => panic!("expected an end second"),
    }
}

#[test]
fn vad_metrics_report_features() {
    let mut vad = SpeechDetector::new(48000);
    vad.process(&vec![0; 480]);
    vad.process(&voiced_wave(0, 480));
    let m = vad.get_metrics();
    assert!(m.amplitude_rms_q15 >= 260);
    assert!(m.zcr_milli >= 10 && m.zcr_milli <= 300);
    assert!(m.centroid_hz >= 200 && m.centroid_hz <= 5500);
    assert!(!m.is_transient);
}
