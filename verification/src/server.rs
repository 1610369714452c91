//! The dispatcher and the shape in which failures reach the caller.
//!
//! One dispatch runs in two steps around the one thing that the host has to
//! wait for. [`dispatch`] resolves the request to a handler and yields an
//! [`Invocation`], which names the notification to put on the sink. When the
//! host knows what became of that notification, [`Invocation::complete`] says
//! what the caller is owed, and [`respond`] puts it in its outbound shape.
use vstd::prelude::*;

use crate::cmd::{Handler, Registry};
use crate::{outcome_view, Delivery, DispatchError, Fault, RequestModel, RestReq, RestRes};

verus! {

/// The status that every failure is reported with.
pub const FAILURE_STATUS: u16 = 500;

/// A request that has been resolved to its handler and waits for the fate of
/// the handler's notification.
#[derive(Debug, Clone, PartialEq, Eq)]
pub struct Invocation {
    pub handler: Handler,
    pub request: RestReq,
}

/// What a dispatch on the given entries resolves a request to: the handler
/// registered under the request's command name, or the complaint that there
/// is none.
pub open spec fn resolve(entries: Map<Seq<char>, Handler>, req: RequestModel) -> Result<
    Handler,
    Fault,
> {
    if entries.contains_key(req.command) {
        Ok(entries[req.command])
    } else {
        Err(Fault::UnknownCommand(req.command))
    }
}

/// What the caller of a dispatch is owed, given the fate of the notification
/// in case a handler was found.
pub open spec fn served(
    entries: Map<Seq<char>, Handler>,
    req: RequestModel,
    delivery: Delivery,
) -> Result<Seq<char>, Fault> {
    match resolve(entries, req) {
        Ok(handler) => handler.outcome(req.params, delivery),
        Err(fault) => Err(fault),
    }
}

/// Resolves `req` against the registry. A registered command yields the
/// invocation of exactly the handler registered under its name, with the
/// request unchanged. Any other command yields `UnknownCommand` with the
/// name, and no invocation: no handler runs and nothing is to be sent.
pub fn dispatch(registry: &Registry, req: RestReq) -> (step: Result<Invocation, DispatchError>)
    ensures
        match step {
            Ok(invocation) => resolve(registry@, req@) == Ok::<Handler, Fault>(invocation.handler)
                && invocation.request@ == req@,
            Err(e) => resolve(registry@, req@) == Err::<Handler, Fault>(e@),
        },
{
    match registry.lookup(req.command.as_str()) {
        Some(handler) => Ok(Invocation { handler, request: req }),
        None => Err(DispatchError::UnknownCommand(req.command)),
    }
}

impl Invocation {
    /// The one notification that the host is to put on the sink for this
    /// invocation.
    pub fn notice(&self) -> (text: String)
        ensures
            text@ == self.handler.notice_text(self.request@.params),
    {
        self.handler.notice(&self.request)
    }

    /// Resolves the invocation, given what became of its notification. The
    /// handler's result is passed on as it is.
    pub fn complete(self, delivery: Delivery) -> (result: Result<RestRes, DispatchError>)
        ensures
            outcome_view(result) == self.handler.outcome(self.request@.params, delivery),
    {
        self.handler.handle(&self.request, delivery)
    }
}

/// For a request that the entries resolve, the two steps of a dispatch
/// together yield what `served` states; for any other request the first step
/// alone does.
pub proof fn lemma_dispatch_serves(
    entries: Map<Seq<char>, Handler>,
    req: RequestModel,
    delivery: Delivery,
)
    ensures
        entries.contains_key(req.command) ==> served(entries, req, delivery)
            == entries[req.command].outcome(req.params, delivery),
        !entries.contains_key(req.command) ==> served(entries, req, delivery) == Err::<
            Seq<char>,
            Fault,
        >(Fault::UnknownCommand(req.command)),
{
}

/// A dispatch whose notification met a closed sink never succeeds: it fails
/// with `UnknownCommand` where no handler is registered, and with
/// `NotificationSendFailure` otherwise.
pub proof fn lemma_closed_sink_never_succeeds(entries: Map<Seq<char>, Handler>, req: RequestModel)
    ensures
        served(entries, req, Delivery::Closed) is Err,
        entries.contains_key(req.command) ==> served(entries, req, Delivery::Closed)->Err_0
            is NotificationSendFailure,
{
}

/// The uniform shape in which every failure reaches the caller.
#[derive(Debug, Clone, PartialEq, Eq)]
pub struct ErrorEnvelope {
    pub message: String,
    pub from: String,
}

/// The mathematical content of an [`ErrorEnvelope`].
pub struct EnvelopeModel {
    pub message: Seq<char>,
    pub from: Seq<char>,
}

impl View for ErrorEnvelope {
    type V = EnvelopeModel;

    open spec fn view(&self) -> EnvelopeModel {
        EnvelopeModel { message: self.message@, from: self.from@ }
    }
}

/// The envelope of a failure: a fixed message, and the failure's own text.
pub open spec fn envelope_of(fault: Fault) -> EnvelopeModel {
    EnvelopeModel { message: "not success"@, from: fault.text() }
}

/// The outbound shape of an outcome: the response as it is, or the envelope
/// of the failure.
pub open spec fn reply_of(outcome: Result<Seq<char>, Fault>) -> Result<Seq<char>, EnvelopeModel> {
    match outcome {
        Ok(response) => Ok(response),
        Err(fault) => Err(envelope_of(fault)),
    }
}

/// The content of an outbound reply.
pub open spec fn reply_view(reply: Result<RestRes, ErrorEnvelope>) -> Result<
    Seq<char>,
    EnvelopeModel,
> {
    match reply {
        Ok(res) => Ok(res@),
        Err(envelope) => Err(envelope@),
    }
}

impl DispatchError {
    /// Puts the failure in the shape in which it reaches the caller.
    pub fn envelope(&self) -> (envelope: ErrorEnvelope)
        ensures
            envelope@ == envelope_of(self@),
    {
        ErrorEnvelope { message: "not success".to_owned(), from: self.text() }
    }
}

/// Puts the outcome of a dispatch in its outbound shape: a response stays as
/// it is, and every failure becomes its envelope.
pub fn respond(outcome: Result<RestRes, DispatchError>) -> (reply: Result<RestRes, ErrorEnvelope>)
    ensures
        reply_view(reply) == reply_of(outcome_view(outcome)),
{
    match outcome {
        Ok(res) => Ok(res),
        Err(e) => Err(e.envelope()),
    }
}

} // verus!
