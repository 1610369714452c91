//! Command dispatch for a small request/response service.
//!
//! A request names a command and carries an opaque payload. The registry of
//! [`cmd`] maps command names to handlers, the dispatcher of [`server`]
//! resolves a request to a handler, and every handler announces its work on a
//! notification sink that is drained by an independent consumer.
//!
//! The library holds the decisions and leaves the waiting to its host: it says
//! which text is to be put on the sink, and, once the host reports what became
//! of that text, which response or error the caller is owed.
use vstd::prelude::*;

pub mod cmd;
pub mod server;

verus! {

/// An inbound request: `command` selects the handler, `params` is read by the
/// selected handler alone.
#[derive(Debug, Clone, PartialEq, Eq)]
pub struct RestReq {
    pub command: String,
    pub params: String,
}

/// The mathematical content of a [`RestReq`].
pub struct RequestModel {
    pub command: Seq<char>,
    pub params: Seq<char>,
}

impl View for RestReq {
    type V = RequestModel;

    open spec fn view(&self) -> RequestModel {
        RequestModel { command: self.command@, params: self.params@ }
    }
}

impl RestReq {
    /// Builds a request from borrowed text.
    pub fn new(command: &str, params: &str) -> (req: Self)
        ensures
            req@.command == command@,
            req@.params == params@,
    {
        Self { command: command.to_owned(), params: params.to_owned() }
    }
}

/// The single success payload.
#[derive(Debug, Clone, PartialEq, Eq)]
pub struct RestRes {
    pub response: String,
}

impl View for RestRes {
    type V = Seq<char>;

    open spec fn view(&self) -> Seq<char> {
        self.response@
    }
}

/// What became of a notification that was handed to the sink.
///
/// The sink is bounded, and a full sink is no failure: the host waits until
/// the sink takes the notification or its consumer is gone.
#[derive(Debug, Clone, Copy, PartialEq, Eq, Structural)]
pub enum Delivery {
    /// The sink accepted the notification.
    Delivered,
    /// The sink's consumer is gone; the notification was not accepted.
    Closed,
}

/// Why a dispatch produced no response.
#[derive(Debug, Clone, PartialEq, Eq)]
pub enum DispatchError {
    /// No handler is registered under the requested command name, which the
    /// variant holds.
    UnknownCommand(String),
    /// The handler's own logic failed; the variant holds its explanation.
    HandlerFailure(String),
    /// The sink refused the handler's notification, which the variant holds.
    NotificationSendFailure(String),
}

/// The mathematical content of a [`DispatchError`].
pub enum Fault {
    UnknownCommand(Seq<char>),
    HandlerFailure(Seq<char>),
    NotificationSendFailure(Seq<char>),
}

impl View for DispatchError {
    type V = Fault;

    open spec fn view(&self) -> Fault {
        match self {
            DispatchError::UnknownCommand(name) => Fault::UnknownCommand(name@),
            DispatchError::HandlerFailure(why) => Fault::HandlerFailure(why@),
            DispatchError::NotificationSendFailure(notice) => Fault::NotificationSendFailure(
                notice@,
            ),
        }
    }
}

/// The text that every unknown command is answered with.
pub open spec fn unknown_command_text() -> Seq<char> {
    "だめ"@
}

/// The text that a refused notification is reported with.
pub open spec fn closed_sink_text() -> Seq<char> {
    "channel closed"@
}

impl Fault {
    /// The text by which a failure is reported to the caller.
    pub open spec fn text(self) -> Seq<char> {
        match self {
            Fault::UnknownCommand(_) => unknown_command_text(),
            Fault::HandlerFailure(why) => why,
            Fault::NotificationSendFailure(_) => closed_sink_text(),
        }
    }
}

impl DispatchError {
    /// The text by which this failure is reported to the caller.
    pub fn text(&self) -> (text: String)
        ensures
            text@ == self@.text(),
    {
        match self {
            DispatchError::UnknownCommand(_) => "だめ".to_owned(),
            DispatchError::HandlerFailure(why) => why.clone(),
            DispatchError::NotificationSendFailure(_) => "channel closed".to_owned(),
        }
    }
}

/// The outcome of a dispatch, as a mathematical value.
pub open spec fn outcome_view(outcome: Result<RestRes, DispatchError>) -> Result<Seq<char>, Fault> {
    match outcome {
        Ok(res) => Ok(res@),
        Err(e) => Err(e@),
    }
}

} // verus!
