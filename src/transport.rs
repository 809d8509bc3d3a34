//! The streaming connection to the transcription service, as a state
//! machine.
//!
//! The caller owns the socket and the timers. It asks `connect` what to do,
//! dials, and reports the handshake's outcome; it runs the inbound and
//! outbound duties, takes queued requests with `next_outbound`, and reports
//! when the connection ends. Every decision (which state follows, whether a
//! request is queued, whether a reconnection is armed) is made here.
use crate::reconnect::{
    after_arm, after_fire, arm_result, ReconnectScheduler, ReconnectTimer, SchedulerView,
};
use crate::sources::{epoch_seconds, is_v4_uuid_text, new_v4_id};
use std::collections::VecDeque;
use vstd::prelude::*;

verus! {

/// Seconds that a handshake may take before it counts as failed.
pub const CONNECT_TIMEOUT_SECS: u64 = 10;

/// Requests that may wait for the outbound duty; beyond that a send fails
/// at once rather than hold up the audio.
pub const OUTBOUND_CAPACITY: usize = 32;

#[derive(Clone, Debug, PartialEq, Eq)]
pub struct WebSocketConfig {
    pub url: String,
    pub auto_reconnect: bool,
    /// Seconds between a failed attempt and the automatic retry.
    pub reconnect_interval: u64,
}

impl Default for WebSocketConfig {
    fn default() -> (r: Self)
        ensures
            r.url@ == "ws://localhost:8000/ws/transcribe"@,
            r.auto_reconnect,
            r.reconnect_interval == 5,
    {
        WebSocketConfig {
            url: "ws://localhost:8000/ws/transcribe".to_owned(),
            auto_reconnect: true,
            reconnect_interval: 5,
        }
    }
}

impl WebSocketConfig {
    /// A copy with the same field values.
    pub fn duplicate(&self) -> (r: Self)
        ensures
            r == *self,
    {
        WebSocketConfig {
            url: self.url.clone(),
            auto_reconnect: self.auto_reconnect,
            reconnect_interval: self.reconnect_interval,
        }
    }
}

/// One chunk of audio on its way to the service.
#[derive(Clone, Debug, PartialEq, Eq)]
pub struct TranscriptionMessage {
    pub id: String,
    /// The chunk's samples, four little-endian bytes each.
    pub audio_data: Vec<u8>,
    /// Capture time, in seconds since the Unix epoch.
    pub timestamp: u64,
}

/// A transcription as the service sends it.
#[derive(Clone, Debug, PartialEq, Eq)]
pub struct TranscriptionResponse {
    pub id: String,
    pub transcript: String,
    pub is_final: bool,
    pub enhanced_text: Option<String>,
}

impl TranscriptionResponse {
    /// The text to hand to the user: for a final response its enhanced text,
    /// or its transcript when it has none; nothing for an interim one.
    pub fn text_to_paste(&self) -> (r: Option<String>)
        ensures
            !self.is_final ==> r is None,
            self.is_final ==> r is Some && r->0@ == match self.enhanced_text {
                Some(t) => t@,
                None => self.transcript@,
            },
    {
        if !self.is_final {
            return None;
        }
        match &self.enhanced_text {
            Some(t) => Some(t.clone()),
            None => Some(self.transcript.clone()),
        }
    }
}

#[derive(Clone, Debug, PartialEq, Eq)]
pub enum WebSocketStatus {
    Disconnected,
    Connecting,
    Connected,
    Error(String),
}

impl WebSocketStatus {
    pub fn duplicate(&self) -> (r: Self)
        ensures
            r == *self,
    {
        match self {
            WebSocketStatus::Disconnected => WebSocketStatus::Disconnected,
            WebSocketStatus::Connecting => WebSocketStatus::Connecting,
            WebSocketStatus::Connected => WebSocketStatus::Connected,
            WebSocketStatus::Error(m) => WebSocketStatus::Error(m.clone()),
        }
    }
}

/// The transitions of the connection: an attempt starts from Disconnected or
/// Error; a handshake ends in Connected or Error; a connection ends in
/// Disconnected or Error.
pub open spec fn legal_transition(from: WebSocketStatus, to: WebSocketStatus) -> bool {
    match from {
        WebSocketStatus::Disconnected => to is Connecting,
        WebSocketStatus::Error(_) => to is Connecting,
        WebSocketStatus::Connecting => to is Connected || to is Error,
        WebSocketStatus::Connected => to is Disconnected || to is Error,
    }
}

pub open spec fn steps_legally(from: WebSocketStatus, to: WebSocketStatus) -> bool {
    from == to || legal_transition(from, to)
}

#[derive(Clone, Copy, Debug, PartialEq, Eq)]
pub enum SendError {
    /// No connection, hence no outbound queue.
    NotConnected,
    /// The outbound queue is full.
    QueueFull,
}

/// What the caller should do after asking to connect.
#[derive(Clone, Debug, PartialEq, Eq)]
pub enum ConnectStep {
    /// Nothing: a connection is up or an attempt is under way, or a timer
    /// was stale.
    NoOp,
    /// Open a connection to `url`, and report failure if the handshake has
    /// not finished after `timeout_secs`.
    Dial { url: String, timeout_secs: u64 },
}

pub ghost struct ClientView {
    pub status: WebSocketStatus,
    pub config: WebSocketConfig,
    /// The configuration in force when the current attempt began.
    pub attempt: WebSocketConfig,
    /// Requests waiting for the outbound duty; none without a connection.
    pub outbound: Option<Seq<TranscriptionMessage>>,
    pub reconnect: SchedulerView,
}

pub open spec fn is_active(s: WebSocketStatus) -> bool {
    s is Connected || s is Connecting
}

pub open spec fn after_connect(v: ClientView) -> ClientView {
    if is_active(v.status) {
        v
    } else {
        ClientView { status: WebSocketStatus::Connecting, attempt: v.config, ..v }
    }
}

pub open spec fn after_handshake(v: ClientView, outcome: Result<(), String>) -> ClientView {
    if !(v.status is Connecting) {
        v
    } else {
        match outcome {
            Ok(_) => ClientView {
                status: WebSocketStatus::Connected,
                outbound: Some(Seq::empty()),
                reconnect: SchedulerView { pending: None, ..v.reconnect },
                ..v
            },
            Err(reason) => ClientView {
                status: WebSocketStatus::Error(reason),
                reconnect: after_arm(v.reconnect, v.attempt.auto_reconnect),
                ..v
            },
        }
    }
}

pub open spec fn handshake_timer(v: ClientView, outcome: Result<(), String>) -> Option<
    ReconnectTimer,
> {
    if v.status is Connecting && outcome is Err {
        arm_result(v.reconnect, v.attempt.auto_reconnect, v.attempt.reconnect_interval)
    } else {
        None
    }
}

pub open spec fn after_close(v: ClientView, failure: Option<String>) -> ClientView {
    if !(v.status is Connected) {
        v
    } else {
        ClientView {
            status: match failure {
                Some(reason) => WebSocketStatus::Error(reason),
                None => WebSocketStatus::Disconnected,
            },
            outbound: None,
            ..v
        }
    }
}

pub open spec fn send_outcome(v: ClientView) -> Result<(), SendError> {
    match v.outbound {
        None => Err(SendError::NotConnected),
        Some(q) => if q.len() >= OUTBOUND_CAPACITY {
            Err(SendError::QueueFull)
        } else {
            Ok(())
        },
    }
}

pub open spec fn after_enqueue(v: ClientView, message: TranscriptionMessage) -> ClientView {
    if send_outcome(v) is Ok {
        ClientView { outbound: Some(v.outbound->Some_0.push(message)), ..v }
    } else {
        v
    }
}

/// Owns the connection's status, configuration, outbound queue and
/// reconnection schedule.
pub struct WebSocketClient {
    config: WebSocketConfig,
    status: WebSocketStatus,
    attempt: WebSocketConfig,
    outbound: Option<VecDeque<TranscriptionMessage>>,
    reconnect: ReconnectScheduler,
}

impl View for WebSocketClient {
    type V = ClientView;

    closed spec fn view(&self) -> ClientView {
        ClientView {
            status: self.status,
            config: self.config,
            attempt: self.attempt,
            outbound: match self.outbound {
                Some(q) => Some(q@),
                None => None,
            },
            reconnect: self.reconnect@,
        }
    }
}

/// A queue exists exactly while connected, and holds at most
/// `OUTBOUND_CAPACITY` requests.
pub open spec fn client_wf(v: ClientView) -> bool {
    &&& (v.status is Connected <==> v.outbound is Some)
    &&& v.outbound matches Some(q) ==> q.len() <= OUTBOUND_CAPACITY
}

impl WebSocketClient {
    /// A disconnected client with the default configuration.
    pub fn new() -> (r: Self)
        ensures
            client_wf(r@),
            r@.status is Disconnected,
            r@.outbound is None,
            r@.reconnect.pending is None,
            r@.config.url@ == "ws://localhost:8000/ws/transcribe"@,
            r@.config.auto_reconnect,
            r@.config.reconnect_interval == 5,
    {
        WebSocketClient {
            config: WebSocketConfig::default(),
            status: WebSocketStatus::Disconnected,
            attempt: WebSocketConfig::default(),
            outbound: None,
            reconnect: ReconnectScheduler::new(),
        }
    }

    pub fn get_status(&self) -> (r: WebSocketStatus)
        ensures
            r == self@.status,
    {
        self.status.duplicate()
    }

    pub fn get_config(&self) -> (r: WebSocketConfig)
        ensures
            r == self@.config,
    {
        self.config.duplicate()
    }

    /// Replaces the configuration for later attempts; an attempt under way
    /// keeps the one it began with, and nothing reconnects.
    pub fn update_config(&mut self, config: WebSocketConfig)
        ensures
            final(self)@ == (ClientView { config, ..old(self)@ }),
    {
        self.config = config;
    }

    /// Whether a reconnection attempt is armed.
    pub fn reconnect_pending(&self) -> (r: bool)
        ensures
            r == self@.reconnect.pending is Some,
    {
        self.reconnect.is_pending()
    }

    /// Starts a connection attempt, unless one is up or under way. A new
    /// attempt moves to Connecting, fixes the configuration it runs with,
    /// and asks the caller to dial under the handshake timeout.
    pub fn connect(&mut self) -> (r: ConnectStep)
        requires
            client_wf(old(self)@),
        ensures
            client_wf(final(self)@),
            final(self)@ == after_connect(old(self)@),
            is_active(old(self)@.status) ==> r is NoOp,
            !is_active(old(self)@.status) ==> (r matches ConnectStep::Dial { url, timeout_secs }
                && url@ == old(self)@.config.url@ && timeout_secs == CONNECT_TIMEOUT_SECS),
    {
        match self.status {
            WebSocketStatus::Connected => ConnectStep::NoOp,
            WebSocketStatus::Connecting => ConnectStep::NoOp,
            _ => {
                self.status = WebSocketStatus::Connecting;
                self.attempt = self.config.duplicate();
                ConnectStep::Dial { url: self.config.url.clone(), timeout_secs: CONNECT_TIMEOUT_SECS }
            },
        }
    }

    /// Takes the outcome of the handshake that `connect` asked for. Success
    /// opens the outbound queue and cancels any armed reconnection; failure
    /// (a refusal or the timeout) records its reason and, when the attempt's
    /// configuration asks for it, arms one reconnection. An outcome that
    /// arrives when no attempt is under way changes nothing.
    pub fn handshake_finished(&mut self, outcome: Result<(), String>) -> (r: Option<
        ReconnectTimer,
    >)
        requires
            client_wf(old(self)@),
        ensures
            client_wf(final(self)@),
            final(self)@ == after_handshake(old(self)@, outcome),
            r == handshake_timer(old(self)@, outcome),
    {
        match self.status {
            WebSocketStatus::Connecting => {},
            _ => {
                return None;
            },
        }
        match outcome {
            Ok(_) => {
                self.status = WebSocketStatus::Connected;
                self.outbound = Some(VecDeque::new());
                self.reconnect.cancel();
                None
            },
            Err(reason) => {
                self.status = WebSocketStatus::Error(reason);
                self.reconnect.arm(self.attempt.auto_reconnect, self.attempt.reconnect_interval)
            },
        }
    }

    /// A reconnection timer ran out. When its ticket is the armed one the
    /// attempt is consumed and a connection is started as by `connect`;
    /// a stale ticket does nothing.
    pub fn reconnect_due(&mut self, ticket: u64) -> (r: ConnectStep)
        requires
            client_wf(old(self)@),
        ensures
            client_wf(final(self)@),
            old(self)@.reconnect.pending != Some(ticket) ==> r is NoOp && final(self)@ == old(
                self,
            )@,
            old(self)@.reconnect.pending == Some(ticket) ==> final(self)@ == after_connect(
                ClientView { reconnect: after_fire(old(self)@.reconnect, ticket), ..old(self)@ },
            ),
            old(self)@.reconnect.pending == Some(ticket) && !is_active(old(self)@.status) ==> (
            r matches ConnectStep::Dial { url, timeout_secs } && url@ == old(self)@.config.url@
                && timeout_secs == CONNECT_TIMEOUT_SECS),
    {
        if !self.reconnect.fire(ticket) {
            return ConnectStep::NoOp;
        }
        self.connect()
    }

    /// The inbound or outbound duty ended: `failure` is the I/O error's
    /// reason, `None` an orderly close. A live connection moves to Error or
    /// Disconnected and drops its queue; otherwise nothing changes. Returns
    /// whether the connection was live, so that the caller tears down the
    /// other duty once.
    pub fn connection_closed(&mut self, failure: Option<String>) -> (r: bool)
        requires
            client_wf(old(self)@),
        ensures
            client_wf(final(self)@),
            r == old(self)@.status is Connected,
            final(self)@ == after_close(old(self)@, failure),
    {
        match self.status {
            WebSocketStatus::Connected => {},
            _ => {
                return false;
            },
        }
        self.status = match failure {
            Some(reason) => WebSocketStatus::Error(reason),
            None => WebSocketStatus::Disconnected,
        };
        self.outbound = None;
        true
    }

    /// Closes a live connection: it moves to Disconnected and its queue is
    /// dropped. Otherwise nothing changes. Returns whether it was live.
    pub fn disconnect(&mut self) -> (r: bool)
        requires
            client_wf(old(self)@),
        ensures
            client_wf(final(self)@),
            r == old(self)@.status is Connected,
            final(self)@ == after_close(old(self)@, None),
    {
        self.connection_closed(None)
    }

    /// Queues a request for the outbound duty: refused without a connection
    /// and when the queue is full, otherwise appended at the back.
    pub fn enqueue_message(&mut self, message: TranscriptionMessage) -> (r: Result<
        (),
        SendError,
    >)
        requires
            client_wf(old(self)@),
        ensures
            client_wf(final(self)@),
            r == send_outcome(old(self)@),
            final(self)@ == after_enqueue(old(self)@, message),
    {
        match &mut self.outbound {
            None => Err(SendError::NotConnected),
            Some(q) => {
                if q.len() >= OUTBOUND_CAPACITY {
                    Err(SendError::QueueFull)
                } else {
                    q.push_back(message);
                    Ok(())
                }
            },
        }
    }

    /// Wraps a chunk's bytes in a request with a fresh random id and the
    /// current time (zero when the clock reads before the Unix epoch), and
    /// queues it as `enqueue_message` does. Without a
    /// connection nothing is built or queued.
    pub fn send_audio_data(&mut self, audio_data: Vec<u8>) -> (r: Result<(), SendError>)
        requires
            client_wf(old(self)@),
        ensures
            client_wf(final(self)@),
            r == send_outcome(old(self)@),
            r is Err ==> final(self)@ == old(self)@,
            r is Ok ==> exists|m: TranscriptionMessage|
                #![trigger after_enqueue(old(self)@, m)]
                m.audio_data@ == audio_data@ && is_v4_uuid_text(m.id@) && final(self)@
                    == after_enqueue(old(self)@, m),
    {
        if self.outbound.is_none() {
            return Err(SendError::NotConnected);
        }
        let timestamp = match epoch_seconds() {
            Some(t) => t,
            None => 0,
        };
        let message = TranscriptionMessage { id: new_v4_id(), audio_data, timestamp };
        self.enqueue_message(message)
    }

    /// Takes the oldest queued request for the outbound duty.
    pub fn next_outbound(&mut self) -> (r: Option<TranscriptionMessage>)
        requires
            client_wf(old(self)@),
        ensures
            client_wf(final(self)@),
            match old(self)@.outbound {
                Some(q) if q.len() > 0 => r == Some(q[0]) && final(self)@ == (ClientView {
                    outbound: Some(q.drop_first()),
                    ..old(self)@
                }),
                _ => r is None && final(self)@ == old(self)@,
            },
    {
        match &mut self.outbound {
            None => None,
            Some(q) => q.pop_front(),
        }
    }
}

/// Every operation of the client either keeps the status or makes one of the
/// legal transitions; in particular an attempt under way never falls back to
/// Disconnected.
pub proof fn lemma_transitions_are_legal(
    v: ClientView,
    outcome: Result<(), String>,
    failure: Option<String>,
    message: TranscriptionMessage,
)
    ensures
        steps_legally(v.status, after_connect(v).status),
        steps_legally(v.status, after_handshake(v, outcome).status),
        steps_legally(v.status, after_close(v, failure).status),
        after_enqueue(v, message).status == v.status,
        v.status is Connecting ==> !(after_handshake(v, outcome).status is Disconnected),
{
}

/// From Disconnected, an attempt whose handshake fails (refused, unreachable
/// or out of time) goes through Connecting and then Error with the failure's
/// reason, one transition each, and leaves no queue behind.
pub proof fn lemma_failed_attempt_path(v: ClientView, reason: String)
    requires
        client_wf(v),
        v.status is Disconnected,
    ensures
        after_connect(v).status is Connecting,
        legal_transition(v.status, after_connect(v).status),
        after_handshake(after_connect(v), Err(reason)).status == WebSocketStatus::Error(reason),
        legal_transition(
            after_connect(v).status,
            after_handshake(after_connect(v), Err(reason)).status,
        ),
        after_handshake(after_connect(v), Err(reason)).outbound is None,
{
}

/// Without a connection a send is refused with NotConnected and queues
/// nothing, so nothing reaches the wire.
pub proof fn lemma_send_without_connection(v: ClientView, message: TranscriptionMessage)
    requires
        client_wf(v),
        v.status is Disconnected,
    ensures
        send_outcome(v) == Err::<(), SendError>(SendError::NotConnected),
        after_enqueue(v, message) == v,
        after_enqueue(v, message).outbound is None,
{
}

/// With automatic reconnection on, a failed attempt arms one retry after the
/// configured interval; a second failure before that retry fires arms no
/// other and leaves the armed one as it was.
pub proof fn lemma_failed_attempt_arms_one_retry(
    v: ClientView,
    first: String,
    second: String,
)
    requires
        client_wf(v),
        !is_active(v.status),
        v.reconnect.pending is None,
        v.config.auto_reconnect,
    ensures
        ({
            let tried = after_connect(v);
            let failed = after_handshake(tried, Err(first));
            let retried = after_connect(failed);
            &&& handshake_timer(tried, Err(first)) == Some(
                ReconnectTimer {
                    ticket: v.reconnect.next_ticket,
                    delay_secs: v.config.reconnect_interval,
                },
            )
            &&& failed.reconnect.pending == Some(v.reconnect.next_ticket)
            &&& handshake_timer(retried, Err(second)) is None
            &&& after_handshake(retried, Err(second)).reconnect == failed.reconnect
        }),
{
}

} // verus!
