//! Errors reported to the user, with where they came from and whether the
//! application can carry on.
use crate::sources::epoch_seconds;
use vstd::prelude::*;

verus! {

#[derive(Clone, Copy, Debug, PartialEq, Eq)]
pub enum ErrorType {
    Audio,
    WebSocket,
    Settings,
    Clipboard,
    Shortcuts,
    System,
}

pub open spec fn error_type_name(t: ErrorType) -> Seq<char> {
    match t {
        ErrorType::Audio => "Audio"@,
        ErrorType::WebSocket => "WebSocket"@,
        ErrorType::Settings => "Settings"@,
        ErrorType::Clipboard => "Clipboard"@,
        ErrorType::Shortcuts => "Shortcuts"@,
        ErrorType::System => "System"@,
    }
}

impl ErrorType {
    /// The variant's name.
    pub fn name(&self) -> (r: &'static str)
        ensures
            r@ == error_type_name(*self),
    {
        match self {
            ErrorType::Audio => "Audio",
            ErrorType::WebSocket => "WebSocket",
            ErrorType::Settings => "Settings",
            ErrorType::Clipboard => "Clipboard",
            ErrorType::Shortcuts => "Shortcuts",
            ErrorType::System => "System",
        }
    }
}

#[derive(Clone, Debug, PartialEq, Eq)]
pub struct AppError {
    pub error_type: ErrorType,
    pub title: String,
    pub message: String,
    pub details: Option<String>,
    /// When the error was raised, in seconds since the Unix epoch.
    pub timestamp: u64,
    pub recoverable: bool,
}

/// The one-line form of an error: `[Type] title: message`.
pub open spec fn summary_text(e: AppError) -> Seq<char> {
    "["@ + error_type_name(e.error_type) + "] "@ + e.title@ + ": "@ + e.message@
}

impl AppError {
    /// A recoverable error without details, stamped with the current time
    /// (zero when the clock reads before the Unix epoch).
    pub fn new(error_type: ErrorType, title: &str, message: &str) -> (r: Self)
        ensures
            r.error_type == error_type,
            r.title@ == title@,
            r.message@ == message@,
            r.details is None,
            r.recoverable,
    {
        let timestamp = match epoch_seconds() {
            Some(t) => t,
            None => 0,
        };
        AppError {
            error_type,
            title: title.to_owned(),
            message: message.to_owned(),
            details: None,
            timestamp,
            recoverable: true,
        }
    }

    /// The same error with `details` attached.
    pub fn with_details(self, details: &str) -> (r: Self)
        ensures
            r.details matches Some(d) && d@ == details@,
            r.error_type == self.error_type,
            r.title == self.title,
            r.message == self.message,
            r.timestamp == self.timestamp,
            r.recoverable == self.recoverable,
    {
        AppError { details: Some(details.to_owned()), ..self }
    }

    /// The same error, marked as one the application cannot recover from.
    pub fn unrecoverable(self) -> (r: Self)
        ensures
            !r.recoverable,
            r.error_type == self.error_type,
            r.title == self.title,
            r.message == self.message,
            r.details == self.details,
            r.timestamp == self.timestamp,
    {
        AppError { recoverable: false, ..self }
    }

    /// Whether the error calls for more than a log line: it is unrecoverable.
    pub fn is_critical(&self) -> (r: bool)
        ensures
            r == !self.recoverable,
    {
        !self.recoverable
    }

    /// The error in one line, as `[Type] title: message`.
    pub fn summary(&self) -> (r: String)
        ensures
            r@ == summary_text(*self),
    {
        let mut text = String::from_str("[");
        text.append(self.error_type.name());
        text.append("] ");
        text.append(self.title.as_str());
        text.append(": ");
        text.append(self.message.as_str());
        text
    }
}

/// A connection error as the transport reports it, with the failure's
/// reason as details when there is one.
pub fn websocket_error(message: &str, details: Option<&str>) -> (r: AppError)
    ensures
        r.error_type == ErrorType::WebSocket,
        r.title@ == "Connection Error"@,
        r.message@ == message@,
        r.recoverable,
        details is None ==> r.details is None,
        details matches Some(d) ==> (r.details matches Some(rd) && rd@ == d@),
{
    let error = AppError::new(ErrorType::WebSocket, "Connection Error", message);
    match details {
        Some(d) => error.with_details(d),
        None => error,
    }
}

} // verus!
