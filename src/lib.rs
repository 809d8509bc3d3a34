//! Audio capture buffering and resilient transcription streaming.
//!
//! The library holds the decisions of a dictation client: how captured
//! samples are windowed and cut into chunks, how chunks are framed as bytes,
//! and how the streaming connection moves between its states. Device access,
//! sockets and timers belong to the caller, which performs the actions these
//! types return and reports back what happened.

pub mod capture;
pub mod codec;
pub mod errors;
pub mod reconnect;
pub mod ring_buffer;
pub mod settings;
pub mod sources;
pub mod transport;

pub use capture::{
    list_devices, AudioDevice, CaptureError, SimpleAudioRecorder, StreamShape,
};
pub use codec::{decode_samples, encode_samples};
pub use errors::{websocket_error, AppError, ErrorType};
pub use reconnect::{ReconnectScheduler, ReconnectTimer};
pub use ring_buffer::CaptureRingBuffer;
pub use settings::{default_true, AppSettings, ShortcutConfig, UpdateCheckResult, UpdateInfo};
pub use transport::{
    ConnectStep, SendError, TranscriptionMessage, TranscriptionResponse, WebSocketClient,
    WebSocketConfig, WebSocketStatus,
};
