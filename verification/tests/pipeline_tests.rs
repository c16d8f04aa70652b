//! End-to-end pipeline: frames in, events and queued segments out.

use flowstt::pipeline::AudioPipeline;
use flowstt::queue::TranscriptionQueue;
use flowstt::transcribe::TranscribeState;
use flowstt::types::EventType;
use flowstt::vad::SpeechDetector;
use flowstt::viz::VisualizationProcessor;

fn pipeline_at_48k() -> AudioPipeline {
    let mut transcribe = TranscribeState::new();
    transcribe.init_for_capture(48000, 1);
    transcribe.activate();
    AudioPipeline {
        detector: SpeechDetector::new(48000),
        viz: VisualizationProcessor::new(48000, 256),
        transcribe,
        queue: TranscriptionQueue::new(),
    }
}

fn pipeline_voiced(phase_start: usize, len: usize) -> Vec<i32> {
    let mut out = Vec::with_capacity(len);
    for i in 0..len {
        let t = (phase_start + i) as f32;
        let v = (2.0 * std::f32::consts::PI * 440.0 * t / 48000.0).sin() * 0.05;
        out.push((v * 32768.0) as i32);
    }
    out
}

#[test]
fn pipeline_speech_run_produces_events_and_segment() {
    let mut pipeline = pipeline_at_48k();
    let mut started = 0;
    let mut ended = 0;
    // Initialization frame plus leading silence.
    for _ in 0..5 {
        let step = pipeline.process_audio_frame(&vec![0; 480], 1);
        assert!(step.events.is_empty());
    }
    // One second of voiced audio.
    let mut phase = 0;
    for _ in 0..100 {
        let step = pipeline.process_audio_frame(&pipeline_voiced(phase, 480), 1);
        phase += 480;
        for e in &step.events {
            match e {
                EventType::SpeechStarted => started += 1,
                EventType::SpeechEnded { .. } => ended += 1,
                _ => {},
            }
        }
    }
    assert_eq!(started, 1);
    assert_eq!(ended, 0);
    // Enough silence to end the speech and cut the segment.
    for _ in 0..40 {
        let step = pipeline.process_audio_frame(&vec![0; 480], 1);
        for e in &step.events {
            match e {
                EventType::SpeechStarted => started += 1,
                EventType::SpeechEnded { duration_ms } => {
                    ended += 1;
                    assert!(*duration_ms >= 900 && *duration_ms <= 1200);
                },
                _ => {},
            }
        }
    }
    assert_eq!(started, 1);
    assert_eq!(ended, 1);
    // The cut segment passed validation and is waiting for the worker.
    assert_eq!(pipeline.queue.queue_depth(), 1);
    let segment = pipeline.queue.dequeue().unwrap();
    assert!(segment.samples.len() >= 48000);
    assert_eq!(segment.sample_rate, 48000);
}

#[test]
fn pipeline_stereo_frames_are_downmixed_for_detection() {
    let mut pipeline = pipeline_at_48k();
    pipeline.transcribe.init_for_capture(48000, 2);
    pipeline.transcribe.activate();
    // Interleaved stereo with identical channels behaves like mono.
    let mut phase = 0;
    let mut started = 0;
    for _ in 0..5 {
        pipeline.process_audio_frame(&vec![0; 960], 2);
    }
    for _ in 0..100 {
        let mono = pipeline_voiced(phase, 480);
        phase += 480;
        let mut stereo = Vec::with_capacity(960);
        for s in &mono {
            stereo.push(*s);
            stereo.push(*s);
        }
        let step = pipeline.process_audio_frame(&stereo, 2);
        for e in &step.events {
            if matches!(e, EventType::SpeechStarted) {
                started += 1;
            }
        }
    }
    assert_eq!(started, 1);
}

#[test]
fn pipeline_quiet_speech_is_not_queued() {
    // Speech quiet enough to slip under the blank-audio floor once the
    // trailing silence dilutes it is dropped by validation.
    let mut pipeline = pipeline_at_48k();
    for _ in 0..5 {
        pipeline.process_audio_frame(&vec![0; 480], 1);
    }
    // 600 ms of very quiet voicing: still matching the voiced mode, but
    // near the amplitude floor.
    for k in 0..60 {
        let mut frame = Vec::with_capacity(480);
        for i in 0..480 {
            let t = (k * 480 + i) as f32;
            let v = (2.0 * std::f32::consts::PI * 440.0 * t / 48000.0).sin() * 0.0125;
            frame.push((v * 32768.0) as i32);
        }
        pipeline.process_audio_frame(&frame, 1);
    }
    for _ in 0..40 {
        pipeline.process_audio_frame(&vec![0; 480], 1);
    }
    assert_eq!(pipeline.queue.queue_depth(), 0);
}

#[test]
fn pipeline_inactive_transcribe_emits_nothing() {
    let mut pipeline = pipeline_at_48k();
    pipeline.transcribe.deactivate();
    let mut phase = 0;
    for _ in 0..120 {
        let step = pipeline.process_audio_frame(&pipeline_voiced(phase, 480), 1);
        phase += 480;
        assert!(step.events.is_empty());
    }
    assert_eq!(pipeline.queue.queue_depth(), 0);
}
