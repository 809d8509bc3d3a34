//! The user's settings: hotkeys, the streaming connection and the
//! microphone; and what an update check reports.
use crate::transport::WebSocketConfig;
use vstd::prelude::*;

verus! {

/// The value a missing on/off setting takes.
pub fn default_true() -> (r: bool)
    ensures
        r,
{
    true
}

#[derive(Clone, Debug, PartialEq, Eq)]
pub struct ShortcutConfig {
    pub transcription: String,
    pub edit: String,
    pub transcription_enabled: bool,
    pub edit_enabled: bool,
}

impl Default for ShortcutConfig {
    fn default() -> (r: Self)
        ensures
            r.transcription@ == "CommandOrControl+Ctrl+Space"@,
            r.edit@ == "CommandOrControl+Ctrl+E"@,
            r.transcription_enabled,
            r.edit_enabled,
    {
        ShortcutConfig {
            transcription: "CommandOrControl+Ctrl+Space".to_owned(),
            edit: "CommandOrControl+Ctrl+E".to_owned(),
            transcription_enabled: default_true(),
            edit_enabled: default_true(),
        }
    }
}

#[derive(Clone, Debug, PartialEq, Eq)]
pub struct AppSettings {
    pub shortcuts: ShortcutConfig,
    pub websocket: WebSocketConfig,
    pub selected_microphone: Option<String>,
}

impl Default for AppSettings {
    fn default() -> (r: Self)
        ensures
            r.shortcuts.transcription@ == "CommandOrControl+Ctrl+Space"@,
            r.shortcuts.edit@ == "CommandOrControl+Ctrl+E"@,
            r.shortcuts.transcription_enabled,
            r.shortcuts.edit_enabled,
            r.websocket.url@ == "ws://localhost:8000/ws/transcribe"@,
            r.websocket.auto_reconnect,
            r.websocket.reconnect_interval == 5,
            r.selected_microphone is None,
    {
        AppSettings {
            shortcuts: ShortcutConfig::default(),
            websocket: WebSocketConfig::default(),
            selected_microphone: None,
        }
    }
}

#[derive(Clone, Debug, PartialEq, Eq)]
pub struct UpdateInfo {
    pub version: String,
    pub date: Option<String>,
    pub body: Option<String>,
    pub download_size: Option<u64>,
}

#[derive(Clone, Debug, PartialEq, Eq)]
pub struct UpdateCheckResult {
    pub available: bool,
    pub update_info: Option<UpdateInfo>,
}

} // verus!
