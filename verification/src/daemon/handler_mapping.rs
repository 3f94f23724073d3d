//! One registered directory handler: its pipeline configuration, startup type,
//! description and the channel to its thread while it runs.

use vstd::prelude::*;
use crate::messages::{HandlerChannelMessage, HandlerSummary, ModifyHandlerRequest};
use crate::text::join2;
use crate::watch_channel::{
    send_error_debug, send_handler_message, WatcherSender,
};

verus! {

/// A registered directory handler.
pub struct HandlerMapping {
    /// The channel to the handler's thread; `None` when no thread was started.
    pub watcher_tx: Option<WatcherSender>,
    pub handler_config_path: String,
    pub is_auto_startup: bool,
    pub description: String,
}

/// The message of a handler stop that reached its thread.
pub open spec fn stopped_message() -> Seq<char> {
    "Handler stopped"@
}

/// The error text of a send to a thread that no longer receives.
pub open spec fn send_failed_text() -> Seq<char> {
    "\"SendError(..)\""@
}

/// The handler as a modify request leaves it.
pub open spec fn modified(h: HandlerMapping, request: ModifyHandlerRequest) -> HandlerMapping {
    HandlerMapping {
        watcher_tx: h.watcher_tx,
        handler_config_path: h.handler_config_path,
        is_auto_startup: match request.is_auto_startup {
            Some(b) => b,
            None => h.is_auto_startup,
        },
        description: match request.modify_description {
            Some(d) => d,
            None => h.description,
        },
    }
}

/// The summary of a handler, given whether its thread answered.
pub open spec fn summary_of(h: HandlerMapping, alive: bool) -> HandlerSummary {
    HandlerSummary {
        is_alive: alive,
        config_path: h.handler_config_path,
        is_auto_startup: h.is_auto_startup,
        description: h.description,
    }
}

impl HandlerMapping {
    /// A handler with no running thread.
    pub fn new(handler_config_path: String, is_auto_startup: bool, description: String) -> (h: Self)
        ensures
            h.watcher_tx is None,
            h.handler_config_path == handler_config_path,
            h.is_auto_startup == is_auto_startup,
            h.description == description,
    {
        HandlerMapping { watcher_tx: None, handler_config_path, is_auto_startup, description }
    }

    /// Sends a message to the handler's thread through its channel. The send
    /// fails, with crossbeam's error text, when the thread no longer receives;
    /// whether it does depends on the other thread.
    pub fn send(&self, message: HandlerChannelMessage) -> (r: Result<(), String>)
        requires
            self.watcher_tx is Some,
        ensures
            r matches Err(t) ==> t@ == send_failed_text(),
    {
        match send_handler_message(self.watcher_tx.as_ref().unwrap(), message) {
            Ok(()) => Ok(()),
            Err(e) => Err(send_error_debug(&e)),
        }
    }

    /// The message that asks the handler's thread whether it is alive: a
    /// ping, when the handler has a thread channel; none otherwise.
    pub fn ping_message(&self) -> (m: Option<HandlerChannelMessage>)
        ensures
            m == (if self.watcher_tx is Some { Some(HandlerChannelMessage::Ping) } else { None }),
    {
        match &self.watcher_tx {
            Some(_) => Some(HandlerChannelMessage::ping()),
            None => None,
        }
    }

    /// Whether the handler is alive, from the outcome of sending it its ping
    /// (`None` when none was sent): alive exactly when it has a thread channel
    /// and the ping was received.
    pub fn is_alive(&self, ping_sent: &Option<Result<(), String>>) -> (alive: bool)
        ensures
            alive == (self.watcher_tx is Some && ping_sent matches Some(Ok(_))),
    {
        match &self.watcher_tx {
            Some(_) => match ping_sent {
                Some(Ok(_)) => true,
                _ => false,
            },
            None => false,
        }
    }

    /// The summary of the handler for a known liveness.
    pub fn summary(&self, alive: bool) -> (s: HandlerSummary)
        ensures
            s == summary_of(*self, alive),
    {
        HandlerSummary {
            is_alive: alive,
            config_path: self.handler_config_path.clone(),
            is_auto_startup: self.is_auto_startup,
            description: self.description.clone(),
        }
    }

    /// The message that ends the watch of the handler's thread: a stop, when
    /// the handler has a thread channel; none otherwise.
    pub fn stop_message(&self) -> (m: Option<HandlerChannelMessage>)
        ensures
            m == (if self.watcher_tx is Some { Some(HandlerChannelMessage::Terminate) } else { None }),
    {
        match &self.watcher_tx {
            Some(_) => Some(HandlerChannelMessage::terminate()),
            None => None,
        }
    }

    /// The answer to telling the handler's thread to end its watch, from the
    /// outcome of sending it its stop message.
    pub fn stop_handler_thread(&self, stop_sent: &Result<(), String>) -> (r: Result<String, String>)
        ensures
            stop_sent is Ok ==> (r matches Ok(m) && m@ == stopped_message()),
            stop_sent matches Err(t) ==> (r matches Err(m) && m@ == "Failed to stop handler\nError: "@ + t@),
    {
        match stop_sent {
            Ok(_) => Ok(String::from_str("Handler stopped")),
            Err(t) => Err(join2("Failed to stop handler\nError: ", t.as_str())),
        }
    }

    /// Applies the startup type and description a modify request carries.
    pub fn modify(&mut self, request: &ModifyHandlerRequest)
        ensures
            *final(self) == modified(*old(self), *request),
    {
        if let Some(is_auto_startup) = request.is_auto_startup {
            self.is_auto_startup = is_auto_startup;
        }
        if let Some(description) = &request.modify_description {
            self.description = description.clone();
        }
    }
}

} // verus!
