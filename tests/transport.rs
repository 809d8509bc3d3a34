use gorlami::transport::{CONNECT_TIMEOUT_SECS, OUTBOUND_CAPACITY};
use gorlami::{
    ConnectStep, SendError, TranscriptionResponse, WebSocketClient, WebSocketConfig,
    WebSocketStatus,
};

fn config(url: &str, auto_reconnect: bool, reconnect_interval: u64) -> WebSocketConfig {
    WebSocketConfig { url: url.to_string(), auto_reconnect, reconnect_interval }
}

fn connected_client() -> WebSocketClient {
    let mut c = WebSocketClient::new();
    c.connect();
    assert_eq!(c.handshake_finished(Ok(())), None);
    c
}

#[test]
fn new_client_is_disconnected_with_default_config() {
    let c = WebSocketClient::new();
    assert_eq!(c.get_status(), WebSocketStatus::Disconnected);
    assert_eq!(c.get_config(), config("ws://localhost:8000/ws/transcribe", true, 5));
    assert_eq!(WebSocketConfig::default(), c.get_config());
}

#[test]
fn failed_handshake_goes_connecting_then_error() {
    let mut c = WebSocketClient::new();
    c.update_config(config("ws://10.255.255.1:9/ws", false, 2));
    let step = c.connect();
    assert_eq!(
        step,
        ConnectStep::Dial { url: "ws://10.255.255.1:9/ws".to_string(), timeout_secs: 10 }
    );
    assert_eq!(CONNECT_TIMEOUT_SECS, 10);
    assert_eq!(c.get_status(), WebSocketStatus::Connecting);
    let timer = c.handshake_finished(Err("Connection timeout after 10 seconds".to_string()));
    assert_eq!(timer, None);
    assert_eq!(
        c.get_status(),
        WebSocketStatus::Error("Connection timeout after 10 seconds".to_string())
    );
    // a late second outcome changes nothing
    assert_eq!(c.handshake_finished(Ok(())), None);
    assert_eq!(
        c.get_status(),
        WebSocketStatus::Error("Connection timeout after 10 seconds".to_string())
    );
}

#[test]
fn connect_is_idempotent_while_connecting_or_connected() {
    let mut c = WebSocketClient::new();
    assert!(matches!(c.connect(), ConnectStep::Dial { .. }));
    assert_eq!(c.connect(), ConnectStep::NoOp);
    c.handshake_finished(Ok(()));
    assert_eq!(c.get_status(), WebSocketStatus::Connected);
    assert_eq!(c.connect(), ConnectStep::NoOp);
    assert_eq!(c.get_status(), WebSocketStatus::Connected);
}

#[test]
fn send_while_disconnected_is_refused() {
    let mut c = WebSocketClient::new();
    assert_eq!(c.send_audio_data(vec![1, 2, 3, 4]), Err(SendError::NotConnected));
    assert_eq!(c.next_outbound(), None);
    assert_eq!(c.get_status(), WebSocketStatus::Disconnected);
}

#[test]
fn send_while_connecting_is_refused() {
    let mut c = WebSocketClient::new();
    c.connect();
    assert_eq!(c.send_audio_data(vec![1]), Err(SendError::NotConnected));
}

#[test]
fn send_queues_a_request_with_fresh_id_and_time() {
    let mut c = connected_client();
    assert_eq!(c.send_audio_data(vec![1, 2, 3, 4]), Ok(()));
    assert_eq!(c.send_audio_data(vec![5, 6, 7, 8]), Ok(()));
    let first = c.next_outbound().unwrap();
    let second = c.next_outbound().unwrap();
    assert_eq!(c.next_outbound(), None);
    assert_eq!(first.audio_data, vec![1, 2, 3, 4]);
    assert_eq!(second.audio_data, vec![5, 6, 7, 8]);
    assert_eq!(first.id.len(), 36);
    assert_eq!(first.id.chars().nth(14), Some('4'));
    for (i, ch) in first.id.chars().enumerate() {
        if i == 8 || i == 13 || i == 18 || i == 23 {
            assert_eq!(ch, '-');
        } else {
            assert!(ch.is_ascii_hexdigit() && !ch.is_ascii_uppercase());
        }
    }
    assert_ne!(first.id, second.id);
    assert!(first.timestamp > 1_600_000_000);
}

#[test]
fn full_queue_fails_fast() {
    let mut c = connected_client();
    for i in 0..OUTBOUND_CAPACITY {
        assert_eq!(c.send_audio_data(vec![i as u8]), Ok(()));
    }
    assert_eq!(OUTBOUND_CAPACITY, 32);
    assert_eq!(c.send_audio_data(vec![0]), Err(SendError::QueueFull));
    assert_eq!(c.next_outbound().unwrap().audio_data, vec![0]);
    assert_eq!(c.send_audio_data(vec![99]), Ok(()));
}

#[test]
fn disconnect_closes_a_live_connection_only() {
    let mut c = WebSocketClient::new();
    assert!(!c.disconnect());
    assert_eq!(c.get_status(), WebSocketStatus::Disconnected);
    let mut c = connected_client();
    c.send_audio_data(vec![1]).unwrap();
    assert!(c.disconnect());
    assert_eq!(c.get_status(), WebSocketStatus::Disconnected);
    assert_eq!(c.next_outbound(), None);
    assert_eq!(c.send_audio_data(vec![1]), Err(SendError::NotConnected));
    assert!(!c.disconnect());
}

#[test]
fn disconnect_while_connecting_keeps_the_attempt() {
    let mut c = WebSocketClient::new();
    c.connect();
    assert!(!c.disconnect());
    assert_eq!(c.get_status(), WebSocketStatus::Connecting);
}

#[test]
fn io_failure_moves_to_error_once() {
    let mut c = connected_client();
    assert!(c.connection_closed(Some("WebSocket error: reset".to_string())));
    assert_eq!(c.get_status(), WebSocketStatus::Error("WebSocket error: reset".to_string()));
    assert!(!c.connection_closed(None));
    assert_eq!(c.get_status(), WebSocketStatus::Error("WebSocket error: reset".to_string()));
}

#[test]
fn orderly_close_moves_to_disconnected() {
    let mut c = connected_client();
    assert!(c.connection_closed(None));
    assert_eq!(c.get_status(), WebSocketStatus::Disconnected);
}

#[test]
fn failed_connect_arms_one_retry_after_interval() {
    let mut c = WebSocketClient::new();
    c.update_config(config("ws://10.255.255.1:9/ws", true, 2));
    c.connect();
    let timer = c.handshake_finished(Err("refused".to_string())).expect("retry armed");
    assert_eq!(timer.delay_secs, 2);
    assert!(c.reconnect_pending());
    // a second failure before the timer fires arms nothing more
    assert!(matches!(c.connect(), ConnectStep::Dial { .. }));
    assert_eq!(c.handshake_finished(Err("refused again".to_string())), None);
    // the armed timer fires once
    assert_eq!(
        c.reconnect_due(timer.ticket),
        ConnectStep::Dial { url: "ws://10.255.255.1:9/ws".to_string(), timeout_secs: 10 }
    );
    assert!(!c.reconnect_pending());
    assert_eq!(c.get_status(), WebSocketStatus::Connecting);
    c.handshake_finished(Err("still refused".to_string()));
    assert_eq!(c.reconnect_due(timer.ticket), ConnectStep::NoOp);
}

#[test]
fn no_retry_without_auto_reconnect() {
    let mut c = WebSocketClient::new();
    c.update_config(config("ws://x", false, 2));
    c.connect();
    assert_eq!(c.handshake_finished(Err("refused".to_string())), None);
    assert!(!c.reconnect_pending());
}

#[test]
fn successful_connect_cancels_pending_retry() {
    let mut c = WebSocketClient::new();
    c.update_config(config("ws://x", true, 2));
    c.connect();
    let timer = c.handshake_finished(Err("refused".to_string())).unwrap();
    c.connect();
    c.handshake_finished(Ok(()));
    assert!(!c.reconnect_pending());
    assert_eq!(c.reconnect_due(timer.ticket), ConnectStep::NoOp);
    assert_eq!(c.get_status(), WebSocketStatus::Connected);
}

#[test]
fn attempt_uses_config_captured_at_start() {
    let mut c = WebSocketClient::new();
    c.update_config(config("ws://a", true, 3));
    c.connect();
    c.update_config(config("ws://b", false, 9));
    let timer = c.handshake_finished(Err("refused".to_string())).unwrap();
    assert_eq!(timer.delay_secs, 3);
    assert_eq!(c.get_config(), config("ws://b", false, 9));
    assert_eq!(c.get_status(), WebSocketStatus::Error("refused".to_string()));
}

#[test]
fn final_response_prefers_enhanced_text() {
    let r = TranscriptionResponse {
        id: "1".to_string(),
        transcript: "hello world".to_string(),
        is_final: true,
        enhanced_text: Some("Hello, world.".to_string()),
    };
    assert_eq!(r.text_to_paste(), Some("Hello, world.".to_string()));
    let plain = TranscriptionResponse { enhanced_text: None, ..r.clone() };
    assert_eq!(plain.text_to_paste(), Some("hello world".to_string()));
    let interim = TranscriptionResponse { is_final: false, ..r };
    assert_eq!(interim.text_to_paste(), None);
}
