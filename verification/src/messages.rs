//! The requests and replies exchanged between the folden client and the
//! folden service, and the messages a handler thread can be sent.

use vstd::prelude::*;

verus! {

/// The port the service listens on when none is configured.
pub const DEFAULT_PORT: u16 = 8080;

/// A message for a running handler thread.
pub enum HandlerChannelMessage {
    /// End the watch.
    Terminate,
    /// Ask whether the thread still receives messages; the thread ignores it.
    Ping,
}

impl HandlerChannelMessage {
    /// The message that asks a handler's thread whether it still runs.
    pub fn ping() -> (m: Self)
        ensures
            m is Ping,
    {
        HandlerChannelMessage::Ping
    }

    /// The message that ends a handler's watch.
    pub fn terminate() -> (m: Self)
        ensures
            m is Terminate,
    {
        HandlerChannelMessage::Terminate
    }
}

/// The state of one directory handler after a request, with a human-readable message.
pub struct HandlerStateResponse {
    pub is_alive: bool,
    pub message: String,
}

/// Handler states keyed by directory path.
pub struct HandlerStatesMapResponse {
    pub states_map: Vec<(String, HandlerStateResponse)>,
}

/// What the service knows of one registered directory handler.
pub struct HandlerSummary {
    pub is_alive: bool,
    pub config_path: String,
    pub is_auto_startup: bool,
    pub description: String,
}

/// Handler summaries keyed by directory path.
pub struct HandlerSummaryMapResponse {
    pub summary_map: Vec<(String, HandlerSummary)>,
}

/// Register a pipeline configuration to a directory.
pub struct RegisterToDirectoryRequest {
    pub directory_path: String,
    pub handler_config_path: String,
    pub is_start_on_register: bool,
    pub is_auto_startup: bool,
}

/// Ask for the summary of a directory's handler (an empty path asks for all).
pub struct GetDirectoryStatusRequest {
    pub directory_path: String,
}

/// Start a directory's handler (an empty path asks for all).
pub struct StartHandlerRequest {
    pub directory_path: String,
}

/// Stop a directory's handler and optionally deregister it (an empty path asks for all).
pub struct StopHandlerRequest {
    pub directory_path: String,
    pub remove: bool,
}

/// Change the startup type or the description of a directory's handler
/// (an empty path asks for all).
pub struct ModifyHandlerRequest {
    pub directory_path: String,
    pub is_auto_startup: Option<bool>,
    pub modify_description: Option<String>,
}

/// Follow the output of a directory's handler (an empty path asks for all).
pub struct TraceHandlerRequest {
    pub directory_path: String,
}

/// One traced message of a handler.
pub struct TraceHandlerResponse {
    pub directory_path: String,
    pub action: Option<String>,
    pub message: String,
}

/// The kinds of refusal the service answers a request with.
#[derive(PartialEq, Eq, Structural, Clone, Copy, Debug)]
pub enum StatusCode {
    NotFound,
    FailedPrecondition,
    Unknown,
}

/// A refused request: its kind and message.
pub struct ServiceError {
    pub code: StatusCode,
    pub message: String,
}

/// `r` is a refusal of the given kind with the given message.
pub open spec fn is_refusal<T>(r: Result<T, ServiceError>, code: StatusCode, message: Seq<char>) -> bool {
    match r {
        Ok(_) => false,
        Err(e) => e.code == code && e.message@ == message,
    }
}

impl ServiceError {
    /// A refusal of the given kind with the given message.
    pub fn new(code: StatusCode, message: String) -> (e: ServiceError)
        ensures
            e.code == code,
            e.message == message,
    {
        ServiceError { code, message }
    }
}

} // verus!
