//! Capture lifecycle, push-to-talk decisions, run flags, requests, and
//! hotkey stubs.

use flowstt::control::{
    ControlAction, ControlEvent, HotkeyEvent, PipelineControl, PttAction, ServiceState,
};
use flowstt::hotkey::{keycode_to_macos, HotkeyRegistry, LinuxHotkeyBackend};
use flowstt::types::{KeyCode, RecordingMode, Request, Response, TranscriptionMode};

#[test]
fn capture_failure_then_valid_sources_recovers() {
    let mut state = ServiceState::default();
    // The front-end connects.
    let actions = state.handle_control_event(ControlEvent::AppReady);
    assert!(actions.is_empty());
    // Sources are configured: a capture start is requested.
    let actions = state.handle_control_event(ControlEvent::SetSources {
        source1_id: Some("mic0".to_string()),
        source2_id: None,
    });
    assert_eq!(actions.len(), 1);
    assert!(matches!(actions[0], ControlAction::StartCapture { .. }));
    // The backend fails to start: capture is off and the error broadcast.
    let actions = state.handle_control_event(ControlEvent::CaptureFailed {
        error: "no such device".to_string(),
    });
    assert!(!state.transcribe_status.capturing);
    assert_eq!(state.transcribe_status.error.as_deref(), Some("no such device"));
    match &actions[0] {
        ControlAction::EmitCaptureState { capturing, error } => {
            assert!(!capturing);
            assert_eq!(error.as_deref(), Some("no such device"));
        },
        other => panic!("unexpected action {:?}", other),
    }
    // A later configuration with a valid id starts capture again.
    let actions = state.handle_control_event(ControlEvent::SetSources {
        source1_id: Some("mic1".to_string()),
        source2_id: None,
    });
    assert!(matches!(actions.last().unwrap(), ControlAction::StartCapture { .. }));
    let actions = state.handle_control_event(ControlEvent::CaptureStarted);
    assert!(state.transcribe_status.capturing);
    assert!(matches!(
        actions[0],
        ControlAction::EmitCaptureState { capturing: true, error: None }
    ));
}

#[test]
fn set_sources_restarts_running_capture() {
    let mut state = ServiceState::default();
    state.handle_control_event(ControlEvent::AppReady);
    state.handle_control_event(ControlEvent::SetSources {
        source1_id: Some("a".to_string()),
        source2_id: None,
    });
    state.handle_control_event(ControlEvent::CaptureStarted);
    let actions = state.handle_control_event(ControlEvent::SetSources {
        source1_id: Some("b".to_string()),
        source2_id: Some("loop".to_string()),
    });
    assert_eq!(actions.len(), 2);
    assert!(matches!(actions[0], ControlAction::StopCapture));
    assert!(matches!(actions[1], ControlAction::StartCapture { .. }));
}

#[test]
fn disconnect_stops_capture() {
    let mut state = ServiceState::default();
    state.handle_control_event(ControlEvent::AppReady);
    state.handle_control_event(ControlEvent::SetSources {
        source1_id: Some("a".to_string()),
        source2_id: None,
    });
    state.handle_control_event(ControlEvent::CaptureStarted);
    let actions = state.handle_control_event(ControlEvent::AppDisconnect);
    assert!(!state.app_ready);
    assert!(!state.transcribe_status.capturing);
    assert!(matches!(actions[0], ControlAction::StopCapture));
}

#[test]
fn aec_and_mode_apply_only_while_capturing() {
    let mut state = ServiceState::default();
    let actions = state.handle_control_event(ControlEvent::SetAecEnabled { enabled: true });
    assert!(state.aec_enabled);
    assert!(actions.is_empty());
    state.handle_control_event(ControlEvent::AppReady);
    state.handle_control_event(ControlEvent::SetSources {
        source1_id: Some("a".to_string()),
        source2_id: None,
    });
    state.handle_control_event(ControlEvent::CaptureStarted);
    let actions = state.handle_control_event(ControlEvent::SetRecordingMode {
        mode: RecordingMode::EchoCancel,
    });
    assert!(matches!(
        actions[0],
        ControlAction::ApplyRecordingMode { mode: RecordingMode::EchoCancel }
    ));
}

#[test]
fn mode_change_restarts_when_ready() {
    let mut state = ServiceState::default();
    state.handle_control_event(ControlEvent::AppReady);
    state.handle_control_event(ControlEvent::SetSources {
        source1_id: Some("a".to_string()),
        source2_id: None,
    });
    state.handle_control_event(ControlEvent::CaptureStarted);
    let actions = state.handle_control_event(ControlEvent::SetTranscriptionMode {
        mode: TranscriptionMode::Automatic,
    });
    assert_eq!(actions.len(), 3);
    assert!(matches!(actions[0], ControlAction::StopCapture));
    assert!(matches!(actions[1], ControlAction::StartCapture { .. }));
    assert!(matches!(
        actions[2],
        ControlAction::EmitModeChanged { mode: TranscriptionMode::Automatic }
    ));
}

#[test]
fn shutdown_stops_everything() {
    let mut state = ServiceState::default();
    let actions = state.handle_control_event(ControlEvent::ShutdownRequested);
    assert_eq!(actions.len(), 3);
    assert!(matches!(actions[0], ControlAction::StopCapture));
    assert!(matches!(actions[1], ControlAction::StopWorker));
    assert!(matches!(actions[2], ControlAction::EmitShutdown));
}

#[test]
fn ptt_press_and_release_cycle() {
    let (active, actions) = flowstt::control::handle_ptt_event(false, HotkeyEvent::Pressed);
    assert!(active);
    assert_eq!(actions, vec![PttAction::EmitPttPressed, PttAction::StartPttCapture]);
    let (active2, actions2) = flowstt::control::handle_ptt_event(active, HotkeyEvent::Pressed);
    assert!(active2);
    assert!(actions2.is_empty());
    let (active3, actions3) = flowstt::control::handle_ptt_event(active2, HotkeyEvent::Released);
    assert!(!active3);
    assert_eq!(actions3, vec![PttAction::StopPttCapture, PttAction::EmitPttReleased]);
    let (active4, actions4) = flowstt::control::handle_ptt_event(active3, HotkeyEvent::Released);
    assert!(!active4);
    assert!(actions4.is_empty());
}

#[test]
fn pipeline_control_flags() {
    let mut control = PipelineControl::new();
    assert!(!control.is_audio_loop_active());
    assert!(control.start_audio_loop().is_ok());
    assert!(control.is_audio_loop_active());
    assert!(control.start_audio_loop().is_err());
    control.stop_audio_loop();
    assert!(!control.is_audio_loop_active());
    control.start_ptt_controller();
    assert!(control.is_ptt_controller_running());
    assert!(!control.is_ptt_active());
    let was_active = control.stop_ptt_controller();
    assert!(!was_active);
    assert!(!control.is_ptt_controller_running());
    assert!(!control.is_shutdown_requested());
    control.request_shutdown();
    assert!(control.is_shutdown_requested());
}

#[test]
fn request_validation() {
    let fine = Request::SetSources {
        source1_id: Some("mic".to_string()),
        source2_id: None,
    };
    assert!(fine.validate().is_ok());
    let empty1 = Request::SetSources {
        source1_id: Some(String::new()),
        source2_id: None,
    };
    assert_eq!(empty1.validate().unwrap_err(), "source1_id cannot be empty");
    let empty2 = Request::SetSources {
        source1_id: Some("mic".to_string()),
        source2_id: Some(String::new()),
    };
    assert_eq!(empty2.validate().unwrap_err(), "source2_id cannot be empty");
    assert!(Request::Ping.validate().is_ok());
    assert!(Request::Shutdown.validate().is_ok());
}

#[test]
fn response_helpers() {
    assert!(Response::error("boom".to_string()).is_error());
    assert!(!Response::ok().is_error());
    assert!(!Response::Pong.is_error());
}

#[test]
fn key_display_names() {
    assert_eq!(KeyCode::RightAlt.display_name(), "Right Option");
    assert_eq!(KeyCode::CapsLock.display_name(), "Caps Lock");
    assert_eq!(KeyCode::F20.display_name(), "F20");
    assert_eq!(KeyCode::default(), KeyCode::RightAlt);
}

#[test]
fn macos_key_codes() {
    assert_eq!(keycode_to_macos(KeyCode::RightAlt), 0x3D);
    assert_eq!(keycode_to_macos(KeyCode::LeftShift), 0x38);
    assert_eq!(keycode_to_macos(KeyCode::F13), 0x69);
}

#[test]
fn hotkey_stub_registry() {
    let mut registry = HotkeyRegistry::new();
    assert!(registry.init_hotkey_backend().is_ok());
    assert!(registry.init_hotkey_backend().is_err());
    assert!(registry.start_hotkey(KeyCode::RightAlt).is_err());
    registry.stop_hotkey();
    assert!(registry.try_recv_hotkey().is_none());
    assert!(!registry.is_hotkey_available());
    assert!(registry.hotkey_unavailable_reason().is_some());
    let stub = LinuxHotkeyBackend::new();
    assert!(!flowstt::hotkey::HotkeyBackend::is_running(&stub));
}
