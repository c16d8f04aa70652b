//! Shared types for audio capture, transcription control, and events.

use vstd::prelude::*;

verus! {

/// Audio source type for capture.
#[derive(Debug, Clone, Copy, PartialEq, Eq, Structural)]
pub enum AudioSourceType {
    /// Microphone or other input device.
    Input,
    /// System audio (monitor/loopback).
    System,
    /// Mixed input and system audio.
    Mixed,
}

impl Default for AudioSourceType {
    fn default() -> (r: Self)
        ensures
            r == AudioSourceType::Input,
    {
        AudioSourceType::Input
    }
}

/// Recording mode: how two active audio sources are combined.
#[derive(Debug, Clone, Copy, PartialEq, Eq, Structural)]
pub enum RecordingMode {
    /// Mix both streams together.
    Mixed,
    /// Output only the echo-cancelled primary source.
    EchoCancel,
}

impl Default for RecordingMode {
    fn default() -> (r: Self)
        ensures
            r == RecordingMode::Mixed,
    {
        RecordingMode::Mixed
    }
}

/// Transcription mode: how speech segment boundaries are identified.
#[derive(Debug, Clone, Copy, PartialEq, Eq, Structural)]
pub enum TranscriptionMode {
    /// Speech detection determines segment boundaries.
    Automatic,
    /// Hotkey press and release determine segment boundaries.
    PushToTalk,
}

impl Default for TranscriptionMode {
    fn default() -> (r: Self)
        ensures
            r == TranscriptionMode::PushToTalk,
    {
        TranscriptionMode::PushToTalk
    }
}

/// Platform-independent key codes for the push-to-talk hotkey.
#[derive(Debug, Clone, Copy, PartialEq, Eq, Structural)]
pub enum KeyCode {
    RightAlt,
    LeftAlt,
    RightControl,
    LeftControl,
    RightShift,
    LeftShift,
    CapsLock,
    F13,
    F14,
    F15,
    F16,
    F17,
    F18,
    F19,
    F20,
}

impl Default for KeyCode {
    fn default() -> (r: Self)
        ensures
            r == KeyCode::RightAlt,
    {
        KeyCode::RightAlt
    }
}

impl KeyCode {
    /// Human-readable display name for the key.
    pub fn display_name(&self) -> (r: &'static str)
        ensures
            *self == KeyCode::RightAlt ==> r@ == "Right Option"@,
            *self == KeyCode::LeftAlt ==> r@ == "Left Option"@,
            *self == KeyCode::RightControl ==> r@ == "Right Control"@,
            *self == KeyCode::LeftControl ==> r@ == "Left Control"@,
            *self == KeyCode::RightShift ==> r@ == "Right Shift"@,
            *self == KeyCode::LeftShift ==> r@ == "Left Shift"@,
            *self == KeyCode::CapsLock ==> r@ == "Caps Lock"@,
            *self == KeyCode::F13 ==> r@ == "F13"@,
            *self == KeyCode::F14 ==> r@ == "F14"@,
            *self == KeyCode::F15 ==> r@ == "F15"@,
            *self == KeyCode::F16 ==> r@ == "F16"@,
            *self == KeyCode::F17 ==> r@ == "F17"@,
            *self == KeyCode::F18 ==> r@ == "F18"@,
            *self == KeyCode::F19 ==> r@ == "F19"@,
            *self == KeyCode::F20 ==> r@ == "F20"@,
    {
        match self {
            KeyCode::RightAlt => "Right Option",
            KeyCode::LeftAlt => "Left Option",
            KeyCode::RightControl => "Right Control",
            KeyCode::LeftControl => "Left Control",
            KeyCode::RightShift => "Right Shift",
            KeyCode::LeftShift => "Left Shift",
            KeyCode::CapsLock => "Caps Lock",
            KeyCode::F13 => "F13",
            KeyCode::F14 => "F14",
            KeyCode::F15 => "F15",
            KeyCode::F16 => "F16",
            KeyCode::F17 => "F17",
            KeyCode::F18 => "F18",
            KeyCode::F19 => "F19",
            KeyCode::F20 => "F20",
        }
    }
}

/// Push-to-talk status information.
#[derive(Debug, Clone)]
pub struct PttStatus {
    /// Current transcription mode.
    pub mode: TranscriptionMode,
    /// Configured PTT hotkey.
    pub key: KeyCode,
    /// Whether the PTT key is currently pressed.
    pub is_active: bool,
    /// Whether PTT is available on this platform.
    pub available: bool,
    /// Reason PTT is unavailable, if it is.
    pub error: Option<String>,
}

impl Default for PttStatus {
    fn default() -> (r: Self)
        ensures
            r.mode == TranscriptionMode::PushToTalk,
            r.key == KeyCode::RightAlt,
            !r.is_active,
            !r.available,
            r.error is None,
    {
        PttStatus {
            mode: TranscriptionMode::PushToTalk,
            key: KeyCode::RightAlt,
            is_active: false,
            available: false,
            error: None,
        }
    }
}

/// Information about an audio device.
#[derive(Debug, Clone)]
pub struct AudioDevice {
    /// Unique identifier given by the platform backend.
    pub id: String,
    /// Display name.
    pub name: String,
    /// Type of audio source.
    pub source_type: AudioSourceType,
}

/// Status of the transcription system.
#[derive(Debug, Clone)]
pub struct TranscribeStatus {
    /// Whether audio capture is running.
    pub capturing: bool,
    /// Whether speech is currently being captured.
    pub in_speech: bool,
    /// Number of segments waiting to be transcribed.
    pub queue_depth: usize,
    /// Error message if capture failed.
    pub error: Option<String>,
}

impl Default for TranscribeStatus {
    fn default() -> (r: Self)
        ensures
            !r.capturing,
            !r.in_speech,
            r.queue_depth == 0,
            r.error is None,
    {
        TranscribeStatus { capturing: false, in_speech: false, queue_depth: 0, error: None }
    }
}

/// Status of the speech-recognition model file.
#[derive(Debug, Clone)]
pub struct ModelStatus {
    /// Whether the model file exists and is available.
    pub available: bool,
    /// Path to the model file.
    pub path: String,
}

/// GPU acceleration status.
#[derive(Debug, Clone)]
pub struct CudaStatus {
    /// Whether the binary was built with GPU support.
    pub build_enabled: bool,
    /// Whether acceleration is available at runtime.
    pub runtime_available: bool,
    /// System information string from the inference engine.
    pub system_info: String,
}

/// A single column of spectrogram data ready for rendering.
#[derive(Debug, Clone)]
pub struct SpectrogramColumn {
    /// RGB triplets for each pixel row (height times three bytes).
    pub colors: Vec<u8>,
}

/// Transcription result for a speech segment.
#[derive(Debug, Clone)]
pub struct TranscriptionResult {
    /// Transcribed text.
    pub text: String,
    /// Path of the saved audio file, when one was written.
    pub audio_path: Option<String>,
}

/// Request from a client to the service.
#[derive(Debug, Clone)]
pub enum Request {
    /// List all audio devices, optionally filtered by source type.
    ListDevices { source_type: Option<AudioSourceType> },
    /// Configure audio sources; capture starts when valid sources are set.
    SetSources { source1_id: Option<String>, source2_id: Option<String> },
    /// Enable or disable acoustic echo cancellation.
    SetAecEnabled { enabled: bool },
    /// Set the recording mode.
    SetRecordingMode { mode: RecordingMode },
    /// Get the current transcription status.
    GetStatus,
    /// Subscribe to real-time events.
    SubscribeEvents,
    /// Get the model status.
    GetModelStatus,
    /// Download the model.
    DownloadModel,
    /// Get GPU acceleration status.
    GetCudaStatus,
    /// Set the transcription mode.
    SetTranscriptionMode { mode: TranscriptionMode },
    /// Set the push-to-talk hotkey.
    SetPushToTalkKey { key: KeyCode },
    /// Get the current PTT status.
    GetPttStatus,
    /// The GUI is ready; capture may start once sources are configured.
    AppReady,
    /// The GUI is disconnecting; capture stops.
    AppDisconnect,
    /// Health check.
    Ping,
    /// Request service shutdown.
    Shutdown,
}

impl Request {
    /// Whether the request's parameters are acceptable: configured source
    /// identifiers must not be empty.
    pub open spec fn spec_valid(self) -> bool {
        match self {
            Request::SetSources { source1_id, source2_id } => {
                &&& (source1_id matches Some(id) ==> id@.len() > 0)
                &&& (source2_id matches Some(id) ==> id@.len() > 0)
            },
            _ => true,
        }
    }

    /// Validate all parameters in this request.
    pub fn validate(&self) -> (r: Result<(), String>)
        ensures
            r is Ok <==> self.spec_valid(),
    {
        match self {
            Request::SetSources { source1_id, source2_id } => {
                if let Some(id) = source1_id {
                    if id.as_str().unicode_len() == 0 {
                        return Err("source1_id cannot be empty".to_string());
                    }
                }
                if let Some(id) = source2_id {
                    if id.as_str().unicode_len() == 0 {
                        return Err("source2_id cannot be empty".to_string());
                    }
                }
                Ok(())
            },
            _ => Ok(()),
        }
    }
}

/// Visualization data for real-time display.
#[derive(Debug, Clone)]
pub struct VisualizationData {
    /// Peak-downsampled waveform in fixed-point units.
    pub waveform: Vec<i32>,
    /// Spectrogram column, when a spectral window completed.
    pub spectrogram: Option<SpectrogramColumn>,
    /// Speech detection metrics.
    pub speech_metrics: Option<crate::vad::SpeechMetrics>,
}

/// Real-time event streamed to subscribed clients.
#[derive(Debug, Clone)]
pub enum EventType {
    /// Visualization data update.
    VisualizationData(VisualizationData),
    /// Transcription result for a segment.
    TranscriptionComplete(TranscriptionResult),
    /// Speech started.
    SpeechStarted,
    /// Speech ended, with the spoken duration.
    SpeechEnded { duration_ms: u64 },
    /// Audio capture state changed.
    CaptureStateChanged { capturing: bool, error: Option<String> },
    /// Model download progress.
    ModelDownloadProgress { percent: u8 },
    /// Model download finished.
    ModelDownloadComplete { success: bool },
    /// Push-to-talk key pressed.
    PttPressed,
    /// Push-to-talk key released.
    PttReleased,
    /// Transcription mode changed.
    TranscriptionModeChanged { mode: TranscriptionMode },
    /// The service is shutting down.
    Shutdown,
}

/// Response from the service to a client.
#[derive(Debug, Clone)]
pub enum Response {
    /// List of audio devices.
    Devices { devices: Vec<AudioDevice> },
    /// Current transcription status.
    Status(TranscribeStatus),
    /// Model status.
    ModelStatus(ModelStatus),
    /// GPU status.
    CudaStatus(CudaStatus),
    /// Push-to-talk status.
    PttStatus(PttStatus),
    /// Subscribed to events.
    Subscribed,
    /// Generic success.
    Success,
    /// Health-check reply.
    Pong,
    /// An error occurred.
    Error { message: String },
    /// Real-time event.
    Event { event: EventType },
}

impl Response {
    /// Create an error response.
    pub fn error(message: String) -> (r: Response)
        ensures
            r matches Response::Error { message: m } && m == message,
    {
        Response::Error { message }
    }

    /// Create a success response.
    pub fn ok() -> (r: Response)
        ensures
            r == Response::Success,
    {
        Response::Success
    }

    /// Whether this response reports an error.
    pub fn is_error(&self) -> (r: bool)
        ensures
            r == (self matches Response::Error { .. }),
    {
        match self {
            Response::Error { .. } => true,
            _ => false,
        }
    }
}

} // verus!
