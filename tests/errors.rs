use gorlami::{default_true, websocket_error, AppError, AppSettings, ErrorType, ShortcutConfig};

#[test]
fn new_error_is_recoverable_and_stamped() {
    let e = AppError::new(ErrorType::Audio, "Recording Error", "no device");
    assert_eq!(e.error_type, ErrorType::Audio);
    assert_eq!(e.title, "Recording Error");
    assert_eq!(e.message, "no device");
    assert_eq!(e.details, None);
    assert!(e.recoverable);
    assert!(!e.is_critical());
    assert!(e.timestamp > 1_600_000_000);
}

#[test]
fn details_and_unrecoverable_keep_the_rest() {
    let e = AppError::new(ErrorType::Clipboard, "Clipboard Error", "busy")
        .with_details("locked by another app")
        .unrecoverable();
    assert_eq!(e.details, Some("locked by another app".to_string()));
    assert!(!e.recoverable);
    assert!(e.is_critical());
    assert_eq!(e.message, "busy");
}

#[test]
fn summary_reads_type_title_message() {
    let e = AppError::new(ErrorType::WebSocket, "Connection Error", "refused");
    assert_eq!(e.summary(), "[WebSocket] Connection Error: refused");
}

#[test]
fn websocket_error_carries_details() {
    let e = websocket_error("Failed to stream audio chunk to backend", Some("WebSocket not connected"));
    assert_eq!(e.error_type, ErrorType::WebSocket);
    assert_eq!(e.title, "Connection Error");
    assert_eq!(e.details, Some("WebSocket not connected".to_string()));
    assert_eq!(websocket_error("x", None).details, None);
}

#[test]
fn settings_defaults() {
    assert!(default_true());
    let s = AppSettings::default();
    assert_eq!(s.shortcuts, ShortcutConfig::default());
    assert_eq!(s.shortcuts.transcription, "CommandOrControl+Ctrl+Space");
    assert_eq!(s.shortcuts.edit, "CommandOrControl+Ctrl+E");
    assert!(s.shortcuts.transcription_enabled && s.shortcuts.edit_enabled);
    assert_eq!(s.websocket.url, "ws://localhost:8000/ws/transcribe");
    assert!(s.websocket.auto_reconnect);
    assert_eq!(s.websocket.reconnect_interval, 5);
    assert_eq!(s.selected_microphone, None);
}
