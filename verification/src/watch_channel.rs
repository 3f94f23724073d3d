//! The channel through which the service talks to a running handler thread:
//! a crossbeam sender of watcher messages (notify events and errors).

use crossbeam::channel::{SendError, Sender};
use vstd::prelude::*;
use crate::messages::HandlerChannelMessage;

verus! {

#[verifier::external_type_specification]
#[verifier::external_body]
pub struct ExNotifyEvent(notify::Event);

#[verifier::external_type_specification]
#[verifier::external_body]
pub struct ExNotifyError(notify::Error);

#[verifier::external_type_specification]
#[verifier::external_body]
#[verifier::reject_recursive_types(T)]
pub struct ExSender<T>(Sender<T>);

#[verifier::external_type_specification]
#[verifier::external_body]
#[verifier::reject_recursive_types(T)]
pub struct ExSendError<T>(SendError<T>);

/// The sending end of a handler thread's watcher channel.
pub type WatcherSender = Sender<Result<notify::Event, notify::Error>>;

/// `crossbeam::channel::Sender::send` of a handler message, as the watcher
/// message it stands for: `Ping` as `Ok(notify::Event::new(EventKind::Other))`,
/// an event with no path that the thread ignores, and `Terminate` as
/// `Err(notify::Error::new(ErrorKind::WatchNotFound))`, the error on which
/// the thread ends its watch. Whether the send succeeds depends on whether
/// the receiving thread still runs, so nothing is stated of the result.
#[verifier::external_body]
pub(crate) fn send_handler_message(tx: &WatcherSender, message: HandlerChannelMessage) -> Result<(), SendError<Result<notify::Event, notify::Error>>> {
    let item = match message {
        HandlerChannelMessage::Ping => Ok(notify::Event::new(notify::EventKind::Other)),
        HandlerChannelMessage::Terminate => Err(notify::Error::new(notify::ErrorKind::WatchNotFound)),
    };
    tx.send(item)
}

/// The `Debug` text of a crossbeam `SendError`: crossbeam writes the fixed
/// text `SendError(..)` through `str`'s `Debug`, so it comes out quoted,
/// whatever the message held.
#[verifier::external_body]
pub(crate) fn send_error_debug<T>(e: &SendError<T>) -> (s: String)
    ensures
        s@ == "\"SendError(..)\""@,
{
    format!("{:?}", e)
}

} // verus!
