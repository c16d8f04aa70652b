//! Service control: shared state, the capture lifecycle state machine, and
//! the push-to-talk controller's decisions.
//!
//! The loops that perform the outside work — starting platform capture,
//! polling hotkeys, broadcasting over the transport — live in the embedding
//! process. They feed events into the functions here and carry out the
//! actions handed back, so every control decision is made by verified code.

use vstd::prelude::*;

use crate::types::{KeyCode, RecordingMode, TranscribeStatus, TranscriptionMode};

verus! {

/// Shared service state.
#[derive(Debug, Clone)]
pub struct ServiceState {
    /// Whether a front-end is connected and ready.
    pub app_ready: bool,
    /// Current transcription status.
    pub transcribe_status: TranscribeStatus,
    /// Whether acoustic echo cancellation is enabled.
    pub aec_enabled: bool,
    /// Current recording mode.
    pub recording_mode: RecordingMode,
    /// Primary audio source identifier.
    pub source1_id: Option<String>,
    /// Secondary audio source identifier.
    pub source2_id: Option<String>,
    /// Current transcription mode.
    pub transcription_mode: TranscriptionMode,
    /// Configured push-to-talk hotkey.
    pub ptt_key: KeyCode,
    /// Whether the push-to-talk key is currently pressed.
    pub is_ptt_active: bool,
}

impl Default for ServiceState {
    fn default() -> (r: Self)
        ensures
            !r.app_ready,
            !r.transcribe_status.capturing,
            !r.transcribe_status.in_speech,
            r.transcribe_status.queue_depth == 0,
            r.transcribe_status.error is None,
            !r.aec_enabled,
            r.recording_mode == RecordingMode::Mixed,
            r.source1_id is None,
            r.source2_id is None,
            r.transcription_mode == TranscriptionMode::PushToTalk,
            r.ptt_key == KeyCode::RightAlt,
            !r.is_ptt_active,
    {
        ServiceState {
            app_ready: false,
            transcribe_status: TranscribeStatus {
                capturing: false,
                in_speech: false,
                queue_depth: 0,
                error: None,
            },
            aec_enabled: false,
            recording_mode: RecordingMode::Mixed,
            source1_id: None,
            source2_id: None,
            transcription_mode: TranscriptionMode::PushToTalk,
            ptt_key: KeyCode::RightAlt,
            is_ptt_active: false,
        }
    }
}

impl ServiceState {
    /// Whether a primary audio source is configured.
    pub fn has_primary_source(&self) -> (r: bool)
        ensures
            r == (self.source1_id is Some),
    {
        self.source1_id.is_some()
    }

    /// Whether capture should be active: the front-end is ready and a
    /// primary source is configured.
    pub fn should_capture(&self) -> (r: bool)
        ensures
            r == (self.app_ready && self.source1_id is Some),
    {
        self.app_ready && self.has_primary_source()
    }
}

/// An input to the capture lifecycle state machine: a client request that
/// affects capture, or the reported outcome of a capture start.
#[derive(Debug, Clone)]
pub enum ControlEvent {
    /// New audio source configuration.
    SetSources { source1_id: Option<String>, source2_id: Option<String> },
    /// Echo cancellation toggled.
    SetAecEnabled { enabled: bool },
    /// Recording mode changed.
    SetRecordingMode { mode: RecordingMode },
    /// Transcription mode changed.
    SetTranscriptionMode { mode: TranscriptionMode },
    /// The front-end signalled readiness.
    AppReady,
    /// The front-end disconnected.
    AppDisconnect,
    /// The backend reports that capture started.
    CaptureStarted,
    /// The backend reports that capture could not start.
    CaptureFailed { error: String },
    /// Service shutdown requested.
    ShutdownRequested,
}

/// An outside action the capture lifecycle state machine asks for.
#[derive(Debug, Clone)]
pub enum ControlAction {
    /// Stop the running capture, finalize the open segment, and deactivate.
    StopCapture,
    /// Start capture with the carried configuration, then report back with
    /// `CaptureStarted` or `CaptureFailed`.
    StartCapture {
        source1_id: Option<String>,
        source2_id: Option<String>,
        aec_enabled: bool,
        recording_mode: RecordingMode,
        transcription_mode: TranscriptionMode,
        ptt_key: KeyCode,
    },
    /// Broadcast a capture state change.
    EmitCaptureState { capturing: bool, error: Option<String> },
    /// Apply the echo cancellation flag to the running backend.
    ApplyAecEnabled { enabled: bool },
    /// Apply the recording mode to the running backend.
    ApplyRecordingMode { mode: RecordingMode },
    /// Broadcast a transcription mode change.
    EmitModeChanged { mode: TranscriptionMode },
    /// Stop the transcription worker, draining the queue.
    StopWorker,
    /// Broadcast service shutdown.
    EmitShutdown,
}

/// A `StartCapture` action carrying the state's current configuration.
pub open spec fn spec_start_capture_of(s: ServiceState) -> ControlAction {
    ControlAction::StartCapture {
        source1_id: s.source1_id,
        source2_id: s.source2_id,
        aec_enabled: s.aec_enabled,
        recording_mode: s.recording_mode,
        transcription_mode: s.transcription_mode,
        ptt_key: s.ptt_key,
    }
}

impl ServiceState {
    fn start_capture_action(&self) -> (r: ControlAction)
        ensures
            r == spec_start_capture_of(*self),
    {
        ControlAction::StartCapture {
            source1_id: self.source1_id.clone(),
            source2_id: self.source2_id.clone(),
            aec_enabled: self.aec_enabled,
            recording_mode: self.recording_mode,
            transcription_mode: self.transcription_mode,
            ptt_key: self.ptt_key,
        }
    }

    /// Drive the capture lifecycle: update the state for `event` and return
    /// the outside actions to perform, in order.
    ///
    /// A new source configuration stops a running capture and starts a new
    /// one when the front-end is ready and a primary source is set; a start
    /// failure reported back leaves capture off with the error recorded and
    /// broadcast; a later configuration with a valid source starts again.
    pub fn handle_control_event(&mut self, event: ControlEvent) -> (r: Vec<ControlAction>)
        ensures
            spec_control_post(*old(self), *final(self), event, r@),
    {
        let mut actions: Vec<ControlAction> = Vec::new();
        match event {
            ControlEvent::SetSources { source1_id, source2_id } => {
                let was_capturing = self.transcribe_status.capturing;
                self.source1_id = source1_id;
                self.source2_id = source2_id;
                if was_capturing {
                    self.transcribe_status.capturing = false;
                    self.transcribe_status.in_speech = false;
                    actions.push(ControlAction::StopCapture);
                }
                if self.should_capture() {
                    actions.push(self.start_capture_action());
                } else {
                    actions.push(
                        ControlAction::EmitCaptureState { capturing: false, error: None },
                    );
                }
            },
            ControlEvent::SetAecEnabled { enabled } => {
                self.aec_enabled = enabled;
                if self.transcribe_status.capturing {
                    actions.push(ControlAction::ApplyAecEnabled { enabled });
                    proof {
                        assert(actions@ =~= seq![ControlAction::ApplyAecEnabled { enabled }]);
                    }
                } else {
                    proof {
                        assert(actions@ =~= Seq::<ControlAction>::empty());
                    }
                }
            },
            ControlEvent::SetRecordingMode { mode } => {
                self.recording_mode = mode;
                if self.transcribe_status.capturing {
                    actions.push(ControlAction::ApplyRecordingMode { mode });
                    proof {
                        assert(actions@ =~= seq![ControlAction::ApplyRecordingMode { mode }]);
                    }
                } else {
                    proof {
                        assert(actions@ =~= Seq::<ControlAction>::empty());
                    }
                }
            },
            ControlEvent::SetTranscriptionMode { mode } => {
                let old_mode = self.transcription_mode;
                self.transcription_mode = mode;
                if old_mode != mode && self.should_capture() {
                    if self.transcribe_status.capturing {
                        self.transcribe_status.capturing = false;
                        self.transcribe_status.in_speech = false;
                    }
                    actions.push(ControlAction::StopCapture);
                    actions.push(self.start_capture_action());
                }
                actions.push(ControlAction::EmitModeChanged { mode });
                proof {
                    if actions@.len() == 1 {
                        assert(actions@ =~= seq![ControlAction::EmitModeChanged { mode }]);
                    }
                }
            },
            ControlEvent::AppReady => {
                let was_ready = self.app_ready;
                self.app_ready = true;
                if !was_ready && self.should_capture() {
                    actions.push(self.start_capture_action());
                    proof {
                        assert(actions@ =~= seq![spec_start_capture_of(*self)]);
                    }
                } else {
                    proof {
                        assert(actions@ =~= Seq::<ControlAction>::empty());
                    }
                }
            },
            ControlEvent::AppDisconnect => {
                let was_capturing = self.transcribe_status.capturing;
                self.app_ready = false;
                if was_capturing {
                    self.transcribe_status.capturing = false;
                    self.transcribe_status.in_speech = false;
                    actions.push(ControlAction::StopCapture);
                    actions.push(
                        ControlAction::EmitCaptureState { capturing: false, error: None },
                    );
                    proof {
                        assert(actions@ =~= seq![
                            ControlAction::StopCapture,
                            ControlAction::EmitCaptureState { capturing: false, error: None },
                        ]);
                    }
                } else {
                    proof {
                        assert(actions@ =~= Seq::<ControlAction>::empty());
                    }
                }
            },
            ControlEvent::CaptureStarted => {
                self.transcribe_status.capturing = true;
                self.transcribe_status.error = None;
                actions.push(ControlAction::EmitCaptureState { capturing: true, error: None });
                proof {
                    assert(actions@ =~= seq![
                        ControlAction::EmitCaptureState { capturing: true, error: None },
                    ]);
                }
            },
            ControlEvent::CaptureFailed { error } => {
                self.transcribe_status.capturing = false;
                self.transcribe_status.in_speech = false;
                self.transcribe_status.error = Some(error.clone());
                actions.push(
                    ControlAction::EmitCaptureState { capturing: false, error: Some(error) },
                );
                proof {
                    assert(actions@.len() == 1);
                }
            },
            ControlEvent::ShutdownRequested => {
                let was_capturing = self.transcribe_status.capturing;
                if was_capturing {
                    self.transcribe_status.capturing = false;
                    self.transcribe_status.in_speech = false;
                }
                actions.push(ControlAction::StopCapture);
                actions.push(ControlAction::StopWorker);
                actions.push(ControlAction::EmitShutdown);
                proof {
                    assert(actions@ =~= seq![
                        ControlAction::StopCapture,
                        ControlAction::StopWorker,
                        ControlAction::EmitShutdown,
                    ]);
                }
            },
        }
        actions
    }
}

/// What `handle_control_event` does, case by case.
pub open spec fn spec_control_post(
    pre: ServiceState,
    post: ServiceState,
    event: ControlEvent,
    actions: Seq<ControlAction>,
) -> bool {
    match event {
        ControlEvent::SetSources { source1_id, source2_id } => {
            let should = pre.app_ready && source1_id is Some;
            let was = pre.transcribe_status.capturing;
            &&& post.source1_id == source1_id
            &&& post.source2_id == source2_id
            &&& post.app_ready == pre.app_ready
            &&& post.aec_enabled == pre.aec_enabled
            &&& post.recording_mode == pre.recording_mode
            &&& post.transcription_mode == pre.transcription_mode
            &&& !post.transcribe_status.capturing
            &&& actions.len() == (if was {
                2int
            } else {
                1int
            })
            &&& (was ==> actions[0] == ControlAction::StopCapture)
            &&& actions.last() == (if should {
                spec_start_capture_of(post)
            } else {
                ControlAction::EmitCaptureState { capturing: false, error: None }
            })
        },
        ControlEvent::SetAecEnabled { enabled } => {
            &&& post == (ServiceState { aec_enabled: enabled, ..pre })
            &&& actions == (if pre.transcribe_status.capturing {
                seq![ControlAction::ApplyAecEnabled { enabled }]
            } else {
                Seq::<ControlAction>::empty()
            })
        },
        ControlEvent::SetRecordingMode { mode } => {
            &&& post == (ServiceState { recording_mode: mode, ..pre })
            &&& actions == (if pre.transcribe_status.capturing {
                seq![ControlAction::ApplyRecordingMode { mode }]
            } else {
                Seq::<ControlAction>::empty()
            })
        },
        ControlEvent::SetTranscriptionMode { mode } => {
            let restart = pre.transcription_mode != mode && pre.app_ready && pre.source1_id
                is Some;
            &&& post.transcription_mode == mode
            &&& post.source1_id == pre.source1_id
            &&& post.source2_id == pre.source2_id
            &&& post.app_ready == pre.app_ready
            &&& (restart ==> actions.len() == 3 && actions[0] == ControlAction::StopCapture
                && actions[1] == spec_start_capture_of(post) && actions[2]
                == ControlAction::EmitModeChanged { mode } && !post.transcribe_status.capturing)
            &&& (!restart ==> actions == seq![ControlAction::EmitModeChanged { mode }]
                && post.transcribe_status == pre.transcribe_status)
        },
        ControlEvent::AppReady => {
            let start = !pre.app_ready && pre.source1_id is Some;
            &&& post == (ServiceState { app_ready: true, ..pre })
            &&& actions == (if start {
                seq![spec_start_capture_of(post)]
            } else {
                Seq::<ControlAction>::empty()
            })
        },
        ControlEvent::AppDisconnect => {
            let was = pre.transcribe_status.capturing;
            &&& !post.app_ready
            &&& !post.transcribe_status.capturing
            &&& post.source1_id == pre.source1_id
            &&& (was ==> actions == seq![
                ControlAction::StopCapture,
                ControlAction::EmitCaptureState { capturing: false, error: None },
            ])
            &&& (!was ==> actions == Seq::<ControlAction>::empty())
        },
        ControlEvent::CaptureStarted => {
            &&& post.transcribe_status.capturing
            &&& post.transcribe_status.error is None
            &&& post.source1_id == pre.source1_id
            &&& post.app_ready == pre.app_ready
            &&& actions == seq![
                ControlAction::EmitCaptureState { capturing: true, error: None },
            ]
        },
        ControlEvent::CaptureFailed { error } => {
            &&& !post.transcribe_status.capturing
            &&& !post.transcribe_status.in_speech
            &&& post.transcribe_status.error == Some(error)
            &&& post.source1_id == pre.source1_id
            &&& post.app_ready == pre.app_ready
            &&& actions == seq![
                ControlAction::EmitCaptureState { capturing: false, error: Some(error) },
            ]
        },
        ControlEvent::ShutdownRequested => {
            &&& !post.transcribe_status.capturing
            &&& actions == seq![
                ControlAction::StopCapture,
                ControlAction::StopWorker,
                ControlAction::EmitShutdown,
            ]
        },
    }
}

/// A hotkey state change observed by the push-to-talk controller.
#[derive(Debug, Clone, Copy, PartialEq, Eq, Structural)]
pub enum HotkeyEvent {
    /// The hotkey was pressed.
    Pressed,
    /// The hotkey was released.
    Released,
}

/// An outside action the push-to-talk controller asks for.
#[derive(Debug, Clone, Copy, PartialEq, Eq, Structural)]
pub enum PttAction {
    /// Start a push-to-talk capture session and open a segment.
    StartPttCapture,
    /// Close the open segment and stop the capture session.
    StopPttCapture,
    /// Broadcast that the key went down.
    EmitPttPressed,
    /// Broadcast that the key came up.
    EmitPttReleased,
}

/// Decide what a hotkey event means for the push-to-talk session: a press
/// while idle starts a capture session, a release while active ends it;
/// anything else is ignored.
pub fn handle_ptt_event(ptt_active: bool, event: HotkeyEvent) -> (r: (bool, Vec<PttAction>))
    ensures
        event == HotkeyEvent::Pressed && !ptt_active ==> r.0 && r.1@ == seq![
            PttAction::EmitPttPressed,
            PttAction::StartPttCapture,
        ],
        event == HotkeyEvent::Pressed && ptt_active ==> r.0 && r.1@ == Seq::<
            PttAction,
        >::empty(),
        event == HotkeyEvent::Released && ptt_active ==> !r.0 && r.1@ == seq![
            PttAction::StopPttCapture,
            PttAction::EmitPttReleased,
        ],
        event == HotkeyEvent::Released && !ptt_active ==> !r.0 && r.1@ == Seq::<
            PttAction,
        >::empty(),
{
    let mut actions: Vec<PttAction> = Vec::new();
    match event {
        HotkeyEvent::Pressed => {
            if !ptt_active {
                actions.push(PttAction::EmitPttPressed);
                actions.push(PttAction::StartPttCapture);
                proof {
                    assert(actions@ =~= seq![
                        PttAction::EmitPttPressed,
                        PttAction::StartPttCapture,
                    ]);
                }
                (true, actions)
            } else {
                (true, actions)
            }
        },
        HotkeyEvent::Released => {
            if ptt_active {
                actions.push(PttAction::StopPttCapture);
                actions.push(PttAction::EmitPttReleased);
                proof {
                    assert(actions@ =~= seq![
                        PttAction::StopPttCapture,
                        PttAction::EmitPttReleased,
                    ]);
                }
                (false, actions)
            } else {
                (false, actions)
            }
        },
    }
}

/// Cross-thread run flags of the process: the audio loop, the push-to-talk
/// controller, and the shutdown request. The embedding process shares one
/// value of this under its own synchronization and polls it in its loops.
#[derive(Debug, Clone, Copy, PartialEq, Eq, Structural)]
pub struct PipelineControl {
    /// Whether the audio loop should keep running.
    pub audio_loop_active: bool,
    /// Whether the push-to-talk controller thread should keep running.
    pub ptt_thread_running: bool,
    /// Whether the push-to-talk key is held.
    pub ptt_active: bool,
    /// Whether process shutdown was requested.
    pub shutdown_requested: bool,
}

impl PipelineControl {
    /// A control block with nothing running and no shutdown requested.
    pub fn new() -> (r: Self)
        ensures
            !r.audio_loop_active,
            !r.ptt_thread_running,
            !r.ptt_active,
            !r.shutdown_requested,
    {
        PipelineControl {
            audio_loop_active: false,
            ptt_thread_running: false,
            ptt_active: false,
            shutdown_requested: false,
        }
    }

    /// Whether the audio loop is running.
    pub fn is_audio_loop_active(&self) -> (r: bool)
        ensures
            r == self.audio_loop_active,
    {
        self.audio_loop_active
    }

    /// Mark the audio loop started. Fails when it is already running.
    pub fn start_audio_loop(&mut self) -> (r: Result<(), String>)
        ensures
            old(self).audio_loop_active ==> r is Err && *final(self) == *old(self),
            !old(self).audio_loop_active ==> r is Ok && *final(self) == (PipelineControl {
                audio_loop_active: true,
                ..*old(self)
            }),
    {
        if self.audio_loop_active {
            return Err("Audio loop already running".to_string());
        }
        self.audio_loop_active = true;
        Ok(())
    }

    /// Ask the audio loop to stop; the loop thread exits on its next poll.
    pub fn stop_audio_loop(&mut self)
        ensures
            *final(self) == (PipelineControl { audio_loop_active: false, ..*old(self) }),
    {
        self.audio_loop_active = false;
    }

    /// Request process shutdown; every loop exits on its next poll.
    pub fn request_shutdown(&mut self)
        ensures
            *final(self) == (PipelineControl { shutdown_requested: true, ..*old(self) }),
    {
        self.shutdown_requested = true;
    }

    /// Whether shutdown has been requested.
    pub fn is_shutdown_requested(&self) -> (r: bool)
        ensures
            r == self.shutdown_requested,
    {
        self.shutdown_requested
    }

    /// Whether the push-to-talk controller thread is running.
    pub fn is_ptt_controller_running(&self) -> (r: bool)
        ensures
            r == self.ptt_thread_running,
    {
        self.ptt_thread_running
    }

    /// Mark the push-to-talk controller started.
    pub fn start_ptt_controller(&mut self)
        ensures
            *final(self) == (PipelineControl {
                ptt_thread_running: true,
                ptt_active: false,
                ..*old(self)
            }),
    {
        self.ptt_thread_running = true;
        self.ptt_active = false;
    }

    /// Ask the push-to-talk controller to stop; an active session must be
    /// stopped by the caller when this returns `true`.
    pub fn stop_ptt_controller(&mut self) -> (was_active: bool)
        ensures
            was_active == (old(self).ptt_thread_running && old(self).ptt_active),
            !old(self).ptt_thread_running ==> *final(self) == *old(self),
            old(self).ptt_thread_running ==> *final(self) == (PipelineControl {
                ptt_thread_running: false,
                ptt_active: false,
                ..*old(self)
            }),
    {
        if !self.ptt_thread_running {
            return false;
        }
        let was_active = self.ptt_active;
        self.ptt_thread_running = false;
        self.ptt_active = false;
        was_active
    }

    /// Whether the push-to-talk key is currently held.
    pub fn is_ptt_active(&self) -> (r: bool)
        ensures
            r == self.ptt_active,
    {
        self.ptt_active
    }
}

} // verus!
