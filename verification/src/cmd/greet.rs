//! The `greet` command: announces the greeting and takes its leave.
use vstd::prelude::*;
use vstd::string::StringExecFns;

use crate::{outcome_view, Delivery, DispatchError, Fault, RestReq, RestRes};

verus! {

/// The notification that announces a greeting with the given payload.
pub open spec fn notice_text(params: Seq<char>) -> Seq<char> {
    "greet handlerから: "@ + params
}

/// The response that a delivered greeting is answered with.
pub open spec fn success_text() -> Seq<char> {
    "good-bye"@
}

/// What the command resolves to, given its payload and the fate of its
/// notification: the response if the sink took the notification, else a send
/// failure that holds the notification.
pub open spec fn outcome(params: Seq<char>, delivery: Delivery) -> Result<Seq<char>, Fault> {
    match delivery {
        Delivery::Delivered => Ok(success_text()),
        Delivery::Closed => Err(Fault::NotificationSendFailure(notice_text(params))),
    }
}

/// The notification that the command puts on the sink before it resolves.
pub fn notice(req: &RestReq) -> (text: String)
    ensures
        text@ == notice_text(req@.params),
{
    "greet handlerから: ".to_owned().concat(req.params.as_str())
}

/// Resolves the command once the host has reported what became of its
/// notification.
pub fn handle(req: &RestReq, delivery: Delivery) -> (result: Result<RestRes, DispatchError>)
    ensures
        outcome_view(result) == outcome(req@.params, delivery),
{
    match delivery {
        Delivery::Delivered => Ok(RestRes { response: "good-bye".to_owned() }),
        Delivery::Closed => Err(DispatchError::NotificationSendFailure(notice(req))),
    }
}

} // verus!
