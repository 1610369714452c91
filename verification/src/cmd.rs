//! The handlers and the registry that finds them by command name.
use vstd::hash_map::StringHashMap;
use vstd::prelude::*;

use crate::{outcome_view, Delivery, DispatchError, Fault, RestReq, RestRes};

pub mod greet;
pub mod yebisu;

verus! {

/// A unit of request handling. The set of handlers is closed: each variant
/// stands for the logic of one command.
#[derive(Debug, Clone, Copy, PartialEq, Eq, Structural)]
pub enum Handler {
    Greet,
    Yebisu,
}

impl Handler {
    /// The command name under which the handler is registered.
    pub open spec fn name(self) -> Seq<char> {
        match self {
            Handler::Greet => "greet"@,
            Handler::Yebisu => "yebisu"@,
        }
    }

    /// The notification that the handler sends for a request with the given
    /// payload.
    pub open spec fn notice_text(self, params: Seq<char>) -> Seq<char> {
        match self {
            Handler::Greet => greet::notice_text(params),
            Handler::Yebisu => yebisu::notice_text(params),
        }
    }

    /// The response that the handler gives once its notification is delivered.
    pub open spec fn success_text(self) -> Seq<char> {
        match self {
            Handler::Greet => greet::success_text(),
            Handler::Yebisu => yebisu::success_text(),
        }
    }

    /// What the handler resolves to, given the payload and the fate of its
    /// notification.
    pub open spec fn outcome(self, params: Seq<char>, delivery: Delivery) -> Result<
        Seq<char>,
        Fault,
    > {
        match self {
            Handler::Greet => greet::outcome(params, delivery),
            Handler::Yebisu => yebisu::outcome(params, delivery),
        }
    }

    /// The command name under which the handler is registered.
    pub fn command(&self) -> (name: &'static str)
        ensures
            name@ == self.name(),
    {
        match self {
            Handler::Greet => "greet",
            Handler::Yebisu => "yebisu",
        }
    }

    /// The notification that the handler puts on the sink for `req`.
    pub fn notice(&self, req: &RestReq) -> (text: String)
        ensures
            text@ == self.notice_text(req@.params),
    {
        match self {
            Handler::Greet => greet::notice(req),
            Handler::Yebisu => yebisu::notice(req),
        }
    }

    /// Resolves `req` once the host has reported what became of the
    /// handler's notification.
    pub fn handle(&self, req: &RestReq, delivery: Delivery) -> (result: Result<
        RestRes,
        DispatchError,
    >)
        ensures
            outcome_view(result) == self.outcome(req@.params, delivery),
    {
        match self {
            Handler::Greet => greet::handle(req, delivery),
            Handler::Yebisu => yebisu::handle(req, delivery),
        }
    }
}

/// Every handler sends exactly the notification of its command, and what it
/// resolves to depends on the fate of that notification alone: its response
/// if the sink took the notification, a send failure that holds the
/// notification if the sink's consumer is gone.
pub proof fn lemma_handler_outcome(handler: Handler, params: Seq<char>, delivery: Delivery)
    ensures
        delivery == Delivery::Delivered ==> handler.outcome(params, delivery) == Ok::<
            Seq<char>,
            Fault,
        >(handler.success_text()),
        delivery == Delivery::Closed ==> handler.outcome(params, delivery) == Err::<
            Seq<char>,
            Fault,
        >(Fault::NotificationSendFailure(handler.notice_text(params))),
{
}

/// Distinct handlers answer to distinct, non-empty command names.
pub proof fn lemma_names_distinct(a: Handler, b: Handler)
    ensures
        a.name().len() > 0,
        a != b ==> a.name() != b.name(),
{
    reveal_strlit("greet");
    reveal_strlit("yebisu");
    assert("greet"@.len() == 5);
    assert("yebisu"@.len() == 6);
}

/// The mapping from command names to handlers that the service is built
/// with.
pub open spec fn registered() -> Map<Seq<char>, Handler> {
    Map::<Seq<char>, Handler>::empty().insert(Handler::Greet.name(), Handler::Greet).insert(
        Handler::Yebisu.name(),
        Handler::Yebisu,
    )
}

/// An immutable mapping from command names to handlers. It is built once, by
/// [`register_handle`], and only read afterwards.
pub struct Registry {
    handlers: StringHashMap<Handler>,
}

impl View for Registry {
    type V = Map<Seq<char>, Handler>;

    closed spec fn view(&self) -> Map<Seq<char>, Handler> {
        self.handlers@
    }
}

impl Registry {
    /// A registry is well formed when it holds finitely many entries, none
    /// of them under an empty name.
    pub open spec fn wf(&self) -> bool {
        &&& self@.dom().finite()
        &&& forall|name: Seq<char>| #[trigger] self@.contains_key(name) ==> name.len() > 0
    }

    /// The handler registered under `name`, if there is one.
    pub open spec fn spec_lookup(&self, name: Seq<char>) -> Option<Handler> {
        if self@.contains_key(name) {
            Some(self@[name])
        } else {
            None
        }
    }

    /// Finds the handler registered under `name`. The registry is only
    /// read: what is found depends on the registry's entries and on `name`,
    /// and on nothing else.
    pub fn lookup(&self, name: &str) -> (found: Option<Handler>)
        ensures
            found == self.spec_lookup(name@),
    {
        match self.handlers.get(name) {
            Some(handler) => Some(*handler),
            None => None,
        }
    }

    /// The number of registered commands.
    pub fn len(&self) -> (n: usize)
        ensures
            n == self@.len(),
    {
        self.handlers.len()
    }

    fn enroll(&mut self, handler: Handler)
        ensures
            final(self)@ == old(self)@.insert(handler.name(), handler),
    {
        self.handlers.insert(handler.command().to_owned(), handler);
    }
}

/// A well-formed registry finds nothing under the empty name.
pub proof fn lemma_empty_name_unregistered(registry: Registry)
    requires
        registry.wf(),
    ensures
        registry.spec_lookup(Seq::<char>::empty()) is None,
{
}

/// Builds the registry of the service: every handler under its own command
/// name, and nothing else.
pub fn register_handle() -> (registry: Registry)
    ensures
        registry@ == registered(),
        registry.wf(),
        registry@.len() == 2,
        forall|handler: Handler| registry.spec_lookup(#[trigger] handler.name()) == Some(handler),
{
    let mut registry = Registry { handlers: StringHashMap::new() };
    registry.enroll(Handler::Greet);
    registry.enroll(Handler::Yebisu);
    proof {
        lemma_registered();
    }
    registry
}

/// The built-in mapping holds exactly one entry for each handler, under the
/// handler's own non-empty name.
pub proof fn lemma_registered()
    ensures
        registered().dom().finite(),
        registered().len() == 2,
        forall|name: Seq<char>| #[trigger]
            registered().contains_key(name) ==> name.len() > 0 && registered()[name].name() == name,
        forall|handler: Handler|
            registered().contains_key(#[trigger] handler.name()) && registered()[handler.name()]
                == handler,
{
    lemma_names_distinct(Handler::Greet, Handler::Yebisu);
    lemma_names_distinct(Handler::Yebisu, Handler::Greet);
    assert(registered().dom() =~= set![Handler::Greet.name(), Handler::Yebisu.name()]);
    assert(registered().dom().len() == 2) by {
        let s0 = Set::<Seq<char>>::empty();
        let s1 = s0.insert(Handler::Greet.name());
        assert(s1.len() == 1);
        assert(!s1.contains(Handler::Yebisu.name()));
        assert(s1.insert(Handler::Yebisu.name()).len() == 2);
        assert(s1.insert(Handler::Yebisu.name()) =~= registered().dom());
    }
}

} // verus!
