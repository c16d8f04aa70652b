//! The per-frame audio pipeline step: mixer output through detection,
//! visualization, segmentation, and the transcription queue.
//!
//! The embedding process pumps frames from the platform backend and calls
//! [`AudioPipeline::process_audio_frame`] for each; everything the frame
//! causes — detection, segment cuts, validation, queueing — happens in
//! verified code here. The loop itself, with its polling and sleeping, is
//! outside.

use vstd::prelude::*;

use crate::queue::{spec_offer, QueuedSegment, TranscriptionQueue};
use crate::sample::{convert_to_mono, mono_of, valid_frame};
use crate::transcribe::{
    spec_on_speech_ended_post, spec_on_speech_started_post, spec_on_word_break_post,
    spec_process_samples_post, spec_segment_valid, TranscribeState,
};
use crate::types::EventType;
use crate::vad::{SpeechDetector, SpeechStateChange, WordBreakEvent};
use crate::viz::{VisualizationProcessor, VizOutput};

verus! {

/// The detector state as it stood right after frame processing, before the
/// pipeline consumed its events.
pub open spec fn spec_detector_with_events(
    d: SpeechDetector,
    c: SpeechStateChange,
    w: Option<WordBreakEvent>,
) -> SpeechDetector {
    SpeechDetector { last_state_change: c, last_word_break_event: w, ..d }
}

/// The mono view of an interleaved frame.
pub open spec fn spec_mono_of_frame(samples: Seq<i32>, channels: int) -> Seq<i32> {
    if channels == 1 {
        samples
    } else {
        Seq::new((samples.len() as int / 2) as nat, |i: int| mono_of(samples, 2, i) as i32)
    }
}

/// What one pipeline step hands back. The ghost fields record the
/// segmentation state after each stage of the step and the segment each
/// stage cut, so the step's contract pins the whole chain.
pub struct PipelineStep {
    /// Speech events to broadcast, in order.
    pub events: Vec<EventType>,
    /// Visualization output of the frame.
    pub viz: VizOutput,
    /// The speech state change the detector reported for this frame.
    pub state_change: SpeechStateChange,
    /// The word break the detector reported for this frame.
    pub word_break: Option<WordBreakEvent>,
    /// Segmentation state after the frame was written into the ring.
    pub ts_after_frame: Ghost<TranscribeState>,
    /// Segmentation state after the state change was applied.
    pub ts_after_change: Ghost<TranscribeState>,
    /// The validated segment the frame write cut, if any.
    pub segment_from_frame: Ghost<Option<QueuedSegment>>,
    /// The validated segment the speech end cut, if any.
    pub segment_from_change: Ghost<Option<QueuedSegment>>,
    /// The validated segment the word break cut, if any.
    pub segment_from_word_break: Ghost<Option<QueuedSegment>>,
}

/// The audio pipeline: speech detector, visualization, segmentation state,
/// and the transcription queue, wired in processing order.
pub struct AudioPipeline {
    /// Voice-activity detector.
    pub detector: SpeechDetector,
    /// Visualization processor.
    pub viz: VisualizationProcessor,
    /// Transcribe-mode segmentation state.
    pub transcribe: TranscribeState,
    /// Queue of validated segments awaiting transcription.
    pub queue: TranscriptionQueue,
}

/// What one pipeline step does to the segmentation state and the queue
/// while transcribe mode is active: the frame runs through
/// `process_samples`, then the detector's state change is applied, then the
/// word break; each stage's cut is offered to the queue in that order.
pub open spec fn spec_pipeline_segmentation(
    pre: AudioPipeline,
    post: AudioPipeline,
    r: PipelineStep,
    frame: Seq<i32>,
) -> bool {
    let cap = pre.queue.capacity as int;
    let closed = pre.queue.closed;
    &&& spec_process_samples_post(pre.transcribe, r.ts_after_frame@, frame, r.segment_from_frame@)
    &&& match r.state_change {
        SpeechStateChange::NoChange => r.ts_after_change@ == r.ts_after_frame@
            && r.segment_from_change@ is None,
        SpeechStateChange::Started { lookback_samples } => spec_on_speech_started_post(
            r.ts_after_frame@,
            r.ts_after_change@,
            lookback_samples as int,
        ) && r.segment_from_change@ is None,
        SpeechStateChange::Ended { duration_ms } => spec_on_speech_ended_post(
            r.ts_after_frame@,
            r.ts_after_change@,
            r.segment_from_change@,
        ),
    }
    &&& match r.word_break {
        Some(wb) => spec_on_word_break_post(
            r.ts_after_change@,
            post.transcribe,
            wb.offset_ms as int,
            wb.gap_duration_ms as int,
            r.segment_from_word_break@,
        ),
        None => post.transcribe == r.ts_after_change@ && r.segment_from_word_break@ is None,
    }
    &&& post.queue.view() == spec_offer(
        spec_offer(
            spec_offer(pre.queue.view(), cap, closed, r.segment_from_frame@),
            cap,
            closed,
            r.segment_from_change@,
        ),
        cap,
        closed,
        r.segment_from_word_break@,
    )
}

impl AudioPipeline {
    /// Structural invariant of all stages.
    pub open spec fn wf(self) -> bool {
        &&& self.detector.wf()
        &&& self.viz.wf()
        &&& self.transcribe.wf()
        &&& self.queue.wf()
    }

    /// Process one captured frame through the whole pipeline: downmix to
    /// mono, run speech detection and visualization, write the raw frame
    /// into the segment ring, apply the detector's events to the
    /// segmentation state, and queue every validated segment that was cut.
    ///
    /// The detector's exact evolution is [`crate::vad::spec_vad_step`];
    /// while transcribe mode is active the segmentation state and the queue
    /// evolve by [`spec_pipeline_segmentation`], and the returned events
    /// mirror the detector's state change.
    pub fn process_audio_frame(&mut self, samples: &Vec<i32>, channels: u16) -> (r: PipelineStep)
        requires
            old(self).wf(),
            valid_frame(samples@),
            samples@.len() <= 0x400_0000,
            1 <= channels <= 2,
            samples@.len() as int % channels as int == 0,
            samples@.len() < old(self).transcribe.ring_buffer.spec_capacity(),
        ensures
            final(self).wf(),
            crate::vad::spec_vad_step(
                old(self).detector,
                spec_detector_with_events(final(self).detector, r.state_change, r.word_break),
                spec_mono_of_frame(samples@, channels as int),
            ),
            final(self).detector.last_state_change == SpeechStateChange::NoChange,
            final(self).detector.last_word_break_event is None,
            final(self).queue.capacity == old(self).queue.capacity,
            final(self).queue.closed == old(self).queue.closed,
            old(self).transcribe.is_active ==> spec_pipeline_segmentation(
                *old(self),
                *final(self),
                r,
                samples@,
            ),
            !old(self).transcribe.is_active ==> final(self).transcribe == old(self).transcribe
                && final(self).queue.view() == old(self).queue.view(),
            forall|j: int|
                old(self).queue.view().len() <= j < final(self).queue.view().len()
                    ==> spec_segment_valid(
                    #[trigger] final(self).queue.view()[j].samples@,
                    old(self).transcribe.sample_rate as int,
                ),
            final(self).transcribe.is_active == old(self).transcribe.is_active,
            final(self).transcribe.sample_rate == old(self).transcribe.sample_rate,
            r.events@ == if old(self).transcribe.is_active {
                match r.state_change {
                    SpeechStateChange::NoChange => Seq::<EventType>::empty(),
                    SpeechStateChange::Started { lookback_samples } => seq![
                        EventType::SpeechStarted,
                    ],
                    SpeechStateChange::Ended { duration_ms } => seq![
                        EventType::SpeechEnded { duration_ms },
                    ],
                }
            } else {
                Seq::<EventType>::empty()
            },
    {
        let ghost q0 = self.queue.view();
        let mono = convert_to_mono(samples, channels as usize);
        proof {
            if channels == 2 {
                assert(mono@ =~= spec_mono_of_frame(samples@, channels as int));
            }
        }
        self.detector.process(&mono);
        let metrics = self.detector.get_metrics();
        self.viz.set_speech_metrics(metrics);
        let viz = self.viz.process(&mono);

        let state_change = self.detector.take_state_change();
        let word_break = self.detector.take_word_break_event();

        let ghost mut ts_after_frame = self.transcribe;
        let ghost mut ts_after_change = self.transcribe;
        let ghost mut segment_from_frame = Option::<QueuedSegment>::None;
        let ghost mut segment_from_change = Option::<QueuedSegment>::None;
        let ghost mut segment_from_word_break = Option::<QueuedSegment>::None;

        let mut events: Vec<EventType> = Vec::new();
        if self.transcribe.is_active {
            let frame_cut = self.transcribe.process_samples(samples);
            proof {
                ts_after_frame = self.transcribe;
                segment_from_frame = frame_cut;
            }
            if let Some(segment) = frame_cut {
                let _accepted = self.queue.enqueue(segment);
            }
            match state_change {
                SpeechStateChange::Started { lookback_samples } => {
                    self.transcribe.on_speech_started(lookback_samples);
                    events.push(EventType::SpeechStarted);
                },
                SpeechStateChange::Ended { duration_ms } => {
                    let end_cut = self.transcribe.on_speech_ended();
                    proof {
                        segment_from_change = end_cut;
                    }
                    if let Some(segment) = end_cut {
                        let _accepted = self.queue.enqueue(segment);
                    }
                    events.push(EventType::SpeechEnded { duration_ms });
                },
                SpeechStateChange::NoChange => {},
            }
            proof {
                ts_after_change = self.transcribe;
            }
            if let Some(wb) = word_break {
                let wb_cut = self.transcribe.on_word_break(wb.offset_ms, wb.gap_duration_ms);
                proof {
                    segment_from_word_break = wb_cut;
                }
                if let Some(segment) = wb_cut {
                    let _accepted = self.queue.enqueue(segment);
                }
            }
        }
        proof {
            assert(final_events_match(
                events@,
                state_change,
                old(self).transcribe.is_active,
            )) by {
                if old(self).transcribe.is_active {
                    match state_change {
                        SpeechStateChange::NoChange => {
                            assert(events@ =~= Seq::<EventType>::empty());
                        },
                        SpeechStateChange::Started { lookback_samples } => {
                            assert(events@ =~= seq![EventType::SpeechStarted]);
                        },
                        SpeechStateChange::Ended { duration_ms } => {
                            assert(events@ =~= seq![EventType::SpeechEnded { duration_ms }]);
                        },
                    }
                } else {
                    assert(events@ =~= Seq::<EventType>::empty());
                }
            }
        }
        PipelineStep {
            events,
            viz,
            state_change,
            word_break,
            ts_after_frame: Ghost(ts_after_frame),
            ts_after_change: Ghost(ts_after_change),
            segment_from_frame: Ghost(segment_from_frame),
            segment_from_change: Ghost(segment_from_change),
            segment_from_word_break: Ghost(segment_from_word_break),
        }
    }
}

/// The events of a pipeline step mirror the detector's state change while
/// transcribe mode is active.
pub open spec fn final_events_match(
    events: Seq<EventType>,
    change: SpeechStateChange,
    active: bool,
) -> bool {
    events == if active {
        match change {
            SpeechStateChange::NoChange => Seq::<EventType>::empty(),
            SpeechStateChange::Started { lookback_samples } => seq![EventType::SpeechStarted],
            SpeechStateChange::Ended { duration_ms } => seq![
                EventType::SpeechEnded { duration_ms },
            ],
        }
    } else {
        Seq::<EventType>::empty()
    }
}

} // verus!
