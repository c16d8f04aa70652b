//! Push-to-talk hotkey backends.
//!
//! The backend interface delivers global key events for the configured
//! push-to-talk hotkey. Only stub backends live here; a platform backend
//! that taps the system event stream is implemented by the embedding
//! process against the same interface.

use vstd::prelude::*;

use crate::control::HotkeyEvent;
use crate::types::KeyCode;

verus! {

/// Platform-agnostic hotkey backend interface.
///
/// Implementations capture global keyboard events and filter for the
/// configured push-to-talk hotkey.
pub trait HotkeyBackend {
    /// Start monitoring for the given hotkey.
    fn start(&mut self, key: KeyCode) -> Result<(), String>;

    /// Stop monitoring for hotkey events.
    fn stop(&mut self);

    /// Receive a hotkey event without blocking, when one is pending.
    fn try_recv(&self) -> Option<HotkeyEvent>;

    /// Whether the backend is currently running.
    fn is_running(&self) -> bool;

    /// Whether the platform supports global hotkeys.
    fn is_available(&self) -> bool;

    /// Why hotkeys are unavailable, when they are.
    fn unavailable_reason(&self) -> Option<String>;
}

/// Platform key code of the push-to-talk key on the system event stream.
pub fn keycode_to_macos(key: KeyCode) -> (r: u16)
    ensures
        key == KeyCode::RightAlt ==> r == 0x3D,
        key == KeyCode::LeftAlt ==> r == 0x3A,
        key == KeyCode::RightControl ==> r == 0x3E,
        key == KeyCode::LeftControl ==> r == 0x3B,
        key == KeyCode::RightShift ==> r == 0x3C,
        key == KeyCode::LeftShift ==> r == 0x38,
        key == KeyCode::CapsLock ==> r == 0x39,
        key == KeyCode::F13 ==> r == 0x69,
        key == KeyCode::F14 ==> r == 0x6B,
        key == KeyCode::F15 ==> r == 0x71,
        key == KeyCode::F16 ==> r == 0x6A,
        key == KeyCode::F17 ==> r == 0x40,
        key == KeyCode::F18 ==> r == 0x4F,
        key == KeyCode::F19 ==> r == 0x50,
        key == KeyCode::F20 ==> r == 0x5A,
{
    match key {
        KeyCode::RightAlt => 0x3D,
        KeyCode::LeftAlt => 0x3A,
        KeyCode::RightControl => 0x3E,
        KeyCode::LeftControl => 0x3B,
        KeyCode::RightShift => 0x3C,
        KeyCode::LeftShift => 0x38,
        KeyCode::CapsLock => 0x39,
        KeyCode::F13 => 0x69,
        KeyCode::F14 => 0x6B,
        KeyCode::F15 => 0x71,
        KeyCode::F16 => 0x6A,
        KeyCode::F17 => 0x40,
        KeyCode::F18 => 0x4F,
        KeyCode::F19 => 0x50,
        KeyCode::F20 => 0x5A,
    }
}

/// Stub hotkey backend for platforms without global hotkey capture yet.
pub struct LinuxHotkeyBackend {
}

impl LinuxHotkeyBackend {
    /// Create the stub backend.
    pub fn new() -> (r: Self) {
        LinuxHotkeyBackend {  }
    }
}

impl HotkeyBackend for LinuxHotkeyBackend {
    fn start(&mut self, key: KeyCode) -> Result<(), String> {
        Err(
            "Push-to-talk is not yet available on Linux. This feature will be implemented in a future release.".to_string(),
        )
    }

    fn stop(&mut self) {
    }

    fn try_recv(&self) -> Option<HotkeyEvent> {
        None
    }

    fn is_running(&self) -> bool {
        false
    }

    fn is_available(&self) -> bool {
        false
    }

    fn unavailable_reason(&self) -> Option<String> {
        Some("Push-to-talk is not yet available on Linux".to_string())
    }
}

/// Stub hotkey backend for platforms without global hotkey capture yet.
pub struct WindowsHotkeyBackend {
}

impl WindowsHotkeyBackend {
    /// Create the stub backend.
    pub fn new() -> (r: Self) {
        WindowsHotkeyBackend {  }
    }
}

impl HotkeyBackend for WindowsHotkeyBackend {
    fn start(&mut self, key: KeyCode) -> Result<(), String> {
        Err(
            "Push-to-talk is not yet available on Windows. This feature will be implemented in a future release.".to_string(),
        )
    }

    fn stop(&mut self) {
    }

    fn try_recv(&self) -> Option<HotkeyEvent> {
        None
    }

    fn is_running(&self) -> bool {
        false
    }

    fn is_available(&self) -> bool {
        false
    }

    fn unavailable_reason(&self) -> Option<String> {
        Some("Push-to-talk is not yet available on Windows".to_string())
    }
}

/// The platform hotkey backend in use. Only the stub backends can be held
/// here; a platform backend tapping the system event stream is owned by the
/// embedding process directly.
pub enum PlatformHotkeyBackend {
    /// Stub backend without global hotkey capture.
    Linux(LinuxHotkeyBackend),
    /// Stub backend without global hotkey capture.
    Windows(WindowsHotkeyBackend),
}

/// Registry holding the process's hotkey backend.
pub struct HotkeyRegistry {
    /// The installed backend, if any.
    pub backend: Option<PlatformHotkeyBackend>,
}

impl HotkeyRegistry {
    /// An empty registry.
    pub fn new() -> (r: Self)
        ensures
            r.backend is None,
    {
        HotkeyRegistry { backend: None }
    }

    /// Install the stub backend of this build. Fails when a backend is
    /// already installed.
    pub fn init_hotkey_backend(&mut self) -> (r: Result<(), String>)
        ensures
            old(self).backend is Some ==> r is Err && *final(self) == *old(self),
            old(self).backend is None ==> r is Ok && final(self).backend is Some,
    {
        if self.backend.is_some() {
            return Err("Hotkey backend already initialized".to_string());
        }
        self.backend = Some(PlatformHotkeyBackend::Linux(LinuxHotkeyBackend::new()));
        Ok(())
    }

    /// The installed backend, installing the stub first if none is there.
    pub fn get_hotkey_backend(&mut self) -> (r: &Option<PlatformHotkeyBackend>)
        ensures
            final(self).backend is Some,
            r == &final(self).backend,
    {
        if self.backend.is_none() {
            let _ = self.init_hotkey_backend();
        }
        &self.backend
    }

    /// Start hotkey monitoring with the given key. The stub backends cannot
    /// monitor, so this always reports an error.
    pub fn start_hotkey(&mut self, key: KeyCode) -> (r: Result<(), String>)
        ensures
            r is Err,
            final(self).backend is Some,
    {
        let _ = self.get_hotkey_backend();
        match &self.backend {
            Some(PlatformHotkeyBackend::Linux(_)) => Err(
                "Push-to-talk is not yet available on Linux. This feature will be implemented in a future release.".to_string(),
            ),
            Some(PlatformHotkeyBackend::Windows(_)) => Err(
                "Push-to-talk is not yet available on Windows. This feature will be implemented in a future release.".to_string(),
            ),
            None => Err("Hotkey backend not available".to_string()),
        }
    }

    /// Stop hotkey monitoring.
    pub fn stop_hotkey(&mut self)
        ensures
            *final(self) == *old(self),
    {
    }

    /// Receive a hotkey event without blocking. The stub backends never
    /// deliver one.
    pub fn try_recv_hotkey(&self) -> (r: Option<HotkeyEvent>)
        ensures
            r is None,
    {
        match &self.backend {
            Some(PlatformHotkeyBackend::Linux(_)) => None,
            Some(PlatformHotkeyBackend::Windows(_)) => None,
            None => None,
        }
    }

    /// Whether hotkey capture is available. It never is with the stubs.
    pub fn is_hotkey_available(&self) -> (r: bool)
        ensures
            !r,
    {
        match &self.backend {
            Some(PlatformHotkeyBackend::Linux(_)) => false,
            Some(PlatformHotkeyBackend::Windows(_)) => false,
            None => false,
        }
    }

    /// Why hotkey capture is unavailable.
    pub fn hotkey_unavailable_reason(&self) -> (r: Option<String>)
        ensures
            self.backend is Some ==> r is Some,
    {
        match &self.backend {
            Some(PlatformHotkeyBackend::Linux(_)) => Some(
                "Push-to-talk is not yet available on Linux".to_string(),
            ),
            Some(PlatformHotkeyBackend::Windows(_)) => Some(
                "Push-to-talk is not yet available on Windows".to_string(),
            ),
            None => None,
        }
    }
}

} // verus!
