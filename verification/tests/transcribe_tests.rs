//! Segmentation state machine: validation, overflow cuts, word-break cuts.

use flowstt::transcribe::TranscribeState;

fn loud_frame(len: usize) -> Vec<i32> {
    // Constant amplitude of a tenth of full scale: RMS well above the
    // blank-audio floor.
    vec![3277; len]
}

#[test]
fn validation_rejects_short_segments() {
    let state = TranscribeState::new();
    // 300 ms at 48 kHz: too short.
    let short = loud_frame(14400);
    assert!(!state.is_segment_valid_for_transcription(&short));
    assert!(state.queue_segment(short).is_none());
    // 600 ms: long enough and loud enough.
    let fine = loud_frame(28800);
    assert!(state.is_segment_valid_for_transcription(&fine));
    assert!(state.queue_segment(fine).is_some());
}

#[test]
fn validation_rejects_quiet_segments() {
    let state = TranscribeState::new();
    // 600 ms at an amplitude of about 0.003: below the 0.01 RMS floor.
    let quiet = vec![100; 28800];
    assert!(!state.is_segment_valid_for_transcription(&quiet));
    assert!(state.queue_segment(quiet).is_none());
    assert!(state.queue_segment(Vec::new()).is_none());
}

#[test]
fn speech_segment_cut_on_end() {
    let mut state = TranscribeState::new();
    state.init_for_capture(48000, 1);
    state.activate();
    state.on_speech_started(0);
    // One second of speech frames.
    for _ in 0..100 {
        let r = state.process_samples(&loud_frame(480));
        assert!(r.is_none());
    }
    let segment = state.on_speech_ended().expect("segment expected");
    assert_eq!(segment.samples.len(), 48000);
    assert_eq!(segment.sample_rate, 48000);
    assert!(!state.in_speech);
}

#[test]
fn overflow_cut_at_threshold() {
    let mut state = TranscribeState::new();
    state.init_for_capture(48000, 2);
    state.activate();
    let capacity = 2880000usize;
    let threshold = capacity * 90 / 100;
    let frame = 480usize;
    // Fill the ring with audio before speech is confirmed, then open a
    // segment whose lookback reaches almost to the overflow threshold.
    for _ in 0..(capacity / frame) {
        assert!(state.process_samples(&loud_frame(frame)).is_none());
    }
    let lookback = threshold - 4 * frame;
    state.on_speech_started(lookback);
    assert!(state.in_speech);
    let mut cuts: Vec<usize> = Vec::new();
    let mut frames_fed = 0usize;
    for _ in 0..105 {
        if let Some(seg) = state.process_samples(&loud_frame(frame)) {
            cuts.push(seg.samples.len());
        }
        frames_fed += 1;
        assert!(state.in_speech);
    }
    // One cut, exactly at the overflow threshold.
    assert_eq!(cuts.len(), 1);
    assert_eq!(cuts[0], threshold);
    // Nothing is lost: the cut and the closing segment cover the lookback
    // and every frame fed since speech was confirmed.
    let tail = state.on_speech_ended().expect("closing segment expected");
    assert_eq!(cuts[0] + tail.samples.len(), lookback + frames_fed * frame);
}

#[test]
fn word_break_cut_splits_segment() {
    let mut state = TranscribeState::new();
    state.init_for_capture(48000, 1);
    state.activate();
    state.on_speech_started(0);
    // 4.3 seconds of speech: the duration threshold passes at 4 s and the
    // word-break search begins.
    for _ in 0..430 {
        let r = state.process_samples(&loud_frame(480));
        assert!(r.is_none());
    }
    assert!(state.seeking_word_break);
    // The detector reports a word break: a 60 ms gap that began 4250 ms in.
    let cut = state.on_word_break(4250, 60).expect("cut expected");
    // The cut lands at the midpoint of the gap: 4280 ms of audio.
    assert_eq!(cut.samples.len(), 4280 * 48);
    assert!(state.in_speech);
    assert!(!state.seeking_word_break);
    // Another 0.7 s of speech, then the end yields the remainder.
    for _ in 0..70 {
        state.process_samples(&loud_frame(480));
    }
    let rest = state.on_speech_ended().expect("closing segment expected");
    assert_eq!(cut.samples.len() + rest.samples.len(), 500 * 480);
}

#[test]
fn grace_period_forces_cut_without_word_break() {
    let mut state = TranscribeState::new();
    state.init_for_capture(48000, 1);
    state.activate();
    state.on_speech_started(0);
    let mut forced: Option<usize> = None;
    // Feed speech past the 4 s threshold plus the 750 ms grace period.
    for _ in 0..500 {
        if let Some(seg) = state.process_samples(&loud_frame(480)) {
            forced = Some(seg.samples.len());
            break;
        }
    }
    let forced_len = forced.expect("forced cut expected");
    // The cut arrives right as the grace period expires: 4750 ms.
    assert_eq!(forced_len, 4750 * 48);
    assert!(state.in_speech);
}

#[test]
fn inactive_state_ignores_everything() {
    let mut state = TranscribeState::new();
    state.init_for_capture(48000, 1);
    assert!(state.process_samples(&loud_frame(480)).is_none());
    state.on_speech_started(100);
    assert!(!state.in_speech);
    assert!(state.on_speech_ended().is_none());
    assert!(state.on_word_break(100, 50).is_none());
    assert!(state.finalize().is_none());
}

#[test]
fn finalize_closes_open_segment() {
    let mut state = TranscribeState::new();
    state.init_for_capture(48000, 1);
    state.activate();
    state.on_speech_started(0);
    for _ in 0..100 {
        state.process_samples(&loud_frame(480));
    }
    let seg = state.finalize().expect("segment expected");
    assert_eq!(seg.samples.len(), 48000);
    assert!(!state.in_speech);
}

#[test]
fn finalize_matches_on_speech_ended() {
    // Two identically driven states: finalizing one and ending speech on
    // the other yield the same segment and the same closed state.
    let mut a = TranscribeState::new();
    let mut b = TranscribeState::new();
    for state in [&mut a, &mut b] {
        state.init_for_capture(48000, 1);
        state.activate();
        state.on_speech_started(0);
        for _ in 0..100 {
            state.process_samples(&loud_frame(480));
        }
    }
    let via_finalize = a.finalize().expect("segment expected");
    let via_ended = b.on_speech_ended().expect("segment expected");
    assert_eq!(via_finalize.samples, via_ended.samples);
    assert_eq!(via_finalize.sample_rate, via_ended.sample_rate);
    assert!(!a.in_speech && !b.in_speech);
    assert_eq!(a.segment_sample_count, 0);
    assert_eq!(a.lookback_sample_count, 0);
}
