//! The dispatcher: the registry of the responders at work, and what is
//! done with each message that arrives.

use crate::message::Message;
use crate::request::{Request, RequestKind};
use crate::responder::Responder;
use std::collections::HashMap;
use vstd::prelude::*;

verus! {

broadcast use vstd::std_specs::hash::group_hash_axioms;

/// The responders that the backend has.
#[derive(Debug, Clone, Copy, PartialEq, Eq, Structural)]
pub enum ResponderKind {
    /// The dialog that shares the user's account information.
    Account,
    /// The dialog that lets the user pick an application.
    AppChooser,
    /// The dialog that lets the user pick files.
    FileChooser,
}

/// The table by which a new request finds its responder. A request that only
/// brings more for a responder at work has no row: it never starts one.
pub open spec fn spec_responder_for(kind: RequestKind) -> Option<ResponderKind> {
    match kind {
        RequestKind::AccountGetUserInformation => Some(ResponderKind::Account),
        RequestKind::AppChooserChooseApplication => Some(ResponderKind::AppChooser),
        RequestKind::AppChooserUpdateChoices => None,
        RequestKind::FileChooserOpenFile => Some(ResponderKind::FileChooser),
        RequestKind::FileChooserSaveFile => Some(ResponderKind::FileChooser),
        RequestKind::FileChooserSaveFiles => Some(ResponderKind::FileChooser),
    }
}

/// The responder that a new request of the given kind is for, if the kind
/// starts one.
#[verifier::when_used_as_spec(spec_responder_for)]
pub fn responder_for(kind: RequestKind) -> (responder: Option<ResponderKind>)
    ensures
        responder == spec_responder_for(kind),
{
    match kind {
        RequestKind::AccountGetUserInformation => Some(ResponderKind::Account),
        RequestKind::AppChooserChooseApplication => Some(ResponderKind::AppChooser),
        RequestKind::AppChooserUpdateChoices => None,
        RequestKind::FileChooserOpenFile
        | RequestKind::FileChooserSaveFile
        | RequestKind::FileChooserSaveFiles => Some(ResponderKind::FileChooser),
    }
}

/// What the dispatcher does with a message.
#[derive(Debug, Clone, Copy, PartialEq, Eq, Structural)]
pub enum Route {
    /// The request is new: a responder of this kind is to be started with it.
    Start(ResponderKind),
    /// The request goes to the responder that works under its identity.
    Update,
    /// The responder is told to give up, and is discarded.
    Cancel,
    /// The responder has answered, and is discarded.
    Close,
    /// No responder works under the identity, and the message starts none:
    /// it is dropped.
    Unknown,
}

/// The route of a message, given whether a responder works under its
/// identity.
pub open spec fn route_of(live: bool, message: Message) -> Route {
    match message {
        Message::Cancel { .. } => if live {
            Route::Cancel
        } else {
            Route::Unknown
        },
        Message::Done { .. } => if live {
            Route::Close
        } else {
            Route::Unknown
        },
        Message::Request { request, .. } => if live {
            Route::Update
        } else {
            match spec_responder_for(request.spec_kind()) {
                Some(kind) => Route::Start(kind),
                None => Route::Unknown,
            }
        },
    }
}

/// The registry after a message was dispatched: `Cancel` and `Done` discard
/// the responder of their request, a request leaves the registry as it is.
pub open spec fn registry_after<R>(registry: Map<usize, R>, message: Message) -> Map<usize, R> {
    match message {
        Message::Cancel { request_id } => registry.remove(request_id),
        Message::Done { request_id } => registry.remove(request_id),
        Message::Request { .. } => registry,
    }
}

/// What is to be done for a dispatched message. The registry has been
/// brought up to date; what concerns the responder itself is left to the
/// caller, who alone can reach it.
pub enum Dispatched<R> {
    /// The request is new. A responder of this kind is to be made, given the
    /// request, and put into the registry with [`Dispatcher::register`].
    Start { request_id: usize, kind: ResponderKind, request: Request },
    /// The request is to be given to the responder that works under the
    /// identity, which stays in the registry.
    Update { request_id: usize, request: Request },
    /// The responder has left the registry. It is to be cancelled and
    /// discarded.
    Cancel { request_id: usize, responder: R },
    /// The responder has left the registry. It has answered, and is to be
    /// discarded.
    Close { request_id: usize, responder: R },
    /// No responder was found for the identity: the message was dropped.
    Unknown { request_id: usize },
}

/// What `dispatch` answers for a message, given the registry that it finds.
pub open spec fn dispatched_as<R>(registry: Map<usize, R>, message: Message) -> Dispatched<R> {
    let request_id = message.spec_request_id();
    match route_of(registry.contains_key(request_id), message) {
        Route::Start(kind) => Dispatched::Start { request_id, kind, request: message->request },
        Route::Update => Dispatched::Update { request_id, request: message->request },
        Route::Cancel => Dispatched::Cancel { request_id, responder: registry[request_id] },
        Route::Close => Dispatched::Close { request_id, responder: registry[request_id] },
        Route::Unknown => Dispatched::Unknown { request_id },
    }
}

/// The single consumer of the requesters' messages. It owns the registry of
/// the responders at work, at most one for each request identity.
pub struct Dispatcher<R> {
    responders: HashMap<usize, R>,
}

impl<R> View for Dispatcher<R> {
    type V = Map<usize, R>;

    closed spec fn view(&self) -> Map<usize, R> {
        self.responders@
    }
}

impl<R> Dispatcher<R> {
    /// A dispatcher without responders.
    pub fn new() -> (dispatcher: Self)
        ensures
            dispatcher@ == Map::<usize, R>::empty(),
    {
        Dispatcher { responders: HashMap::new() }
    }

    /// Whether a responder works under the identity.
    pub fn contains(&self, request_id: usize) -> (live: bool)
        ensures
            live == self@.contains_key(request_id),
    {
        self.responders.contains_key(&request_id)
    }

    /// The responder that works under the identity.
    pub fn get(&self, request_id: usize) -> (responder: Option<&R>)
        ensures
            match responder {
                Some(responder) => self@.contains_key(request_id) && *responder
                    == self@[request_id],
                None => !self@.contains_key(request_id),
            },
    {
        self.responders.get(&request_id)
    }

    /// How many responders are at work.
    pub fn len(&self) -> (count: usize)
        ensures
            count == self@.len(),
    {
        self.responders.len()
    }

    /// What is to be done with the message. Nothing is done yet.
    pub fn route(&self, message: &Message) -> (route: Route)
        ensures
            route == route_of(self@.contains_key(message.spec_request_id()), *message),
    {
        let live = self.responders.contains_key(&message.request_id());
        match message {
            Message::Cancel { .. } => if live {
                Route::Cancel
            } else {
                Route::Unknown
            },
            Message::Done { .. } => if live {
                Route::Close
            } else {
                Route::Unknown
            },
            Message::Request { request, .. } => if live {
                Route::Update
            } else {
                match responder_for(request.kind()) {
                    Some(kind) => Route::Start(kind),
                    None => Route::Unknown,
                }
            },
        }
    }

    /// Puts a responder under the identity of the request that it was
    /// started with, in place of any that worked there.
    pub fn register(&mut self, request_id: usize, responder: R)
        ensures
            final(self)@ == old(self)@.insert(request_id, responder),
    {
        self.responders.insert(request_id, responder);
    }

    /// Takes the responder of the identity out of the registry.
    pub fn remove(&mut self, request_id: usize) -> (responder: Option<R>)
        ensures
            final(self)@ == old(self)@.remove(request_id),
            match responder {
                Some(responder) => old(self)@.contains_key(request_id) && responder == old(
                    self,
                )@[request_id],
                None => !old(self)@.contains_key(request_id),
            },
    {
        self.responders.remove(&request_id)
    }
}

impl<R: Responder> Dispatcher<R> {
    /// Handles one message. `Cancel` and `Done` take the responder of their
    /// request out of the registry and hand it over, to be cancelled or just
    /// discarded. A request for a responder at work is handed over for it; a
    /// new request is handed over with the kind of responder to start. A
    /// message that finds no responder and starts none is reported and
    /// dropped.
    pub fn dispatch(&mut self, message: Message) -> (dispatched: Dispatched<R>)
        ensures
            final(self)@ == registry_after(old(self)@, message),
            dispatched == dispatched_as(old(self)@, message),
    {
        match message {
            Message::Cancel { request_id } => match self.responders.remove(&request_id) {
                Some(responder) => Dispatched::Cancel { request_id, responder },
                None => Dispatched::Unknown { request_id },
            },
            Message::Done { request_id } => match self.responders.remove(&request_id) {
                Some(responder) => Dispatched::Close { request_id, responder },
                None => Dispatched::Unknown { request_id },
            },
            Message::Request { request_id, request } => {
                if self.responders.contains_key(&request_id) {
                    Dispatched::Update { request_id, request }
                } else {
                    match responder_for(request.kind()) {
                        Some(kind) => Dispatched::Start { request_id, kind, request },
                        None => Dispatched::Unknown { request_id },
                    }
                }
            },
        }
    }
}

/// One change of the registry: a message was dispatched, or a responder was
/// started under an identity.
pub enum Change<R> {
    Dispatched(Message),
    Started { request_id: usize, responder: R },
}

/// Whether the change ends the work under the identity or puts another
/// responder there: a `Cancel` or `Done` for it, or a start under it.
pub open spec fn displaces<R>(change: Change<R>, request_id: usize) -> bool {
    match change {
        Change::Dispatched(Message::Cancel { request_id: ended }) => ended == request_id,
        Change::Dispatched(Message::Done { request_id: ended }) => ended == request_id,
        Change::Dispatched(Message::Request { .. }) => false,
        Change::Started { request_id: started, .. } => started == request_id,
    }
}

/// The registry after a run of changes.
pub open spec fn registry_after_all<R>(registry: Map<usize, R>, changes: Seq<Change<R>>) -> Map<
    usize,
    R,
>
    decreases changes.len(),
{
    if changes.len() == 0 {
        registry
    } else {
        let next = match changes[0] {
            Change::Dispatched(message) => registry_after(registry, message),
            Change::Started { request_id, responder } => registry.insert(request_id, responder),
        };
        registry_after_all(next, changes.drop_first())
    }
}

/// A responder stays retrievable under its identity, the same one, until a
/// `Cancel` or `Done` for that identity arrives: no other message and no
/// start under another identity touches it.
pub proof fn lemma_responder_stays<R>(
    registry: Map<usize, R>,
    request_id: usize,
    changes: Seq<Change<R>>,
)
    requires
        registry.contains_key(request_id),
        forall|i: int| 0 <= i < changes.len() ==> !displaces(#[trigger] changes[i], request_id),
    ensures
        registry_after_all(registry, changes).contains_key(request_id),
        registry_after_all(registry, changes)[request_id] == registry[request_id],
    decreases changes.len(),
{
    if changes.len() > 0 {
        let next = match changes[0] {
            Change::Dispatched(message) => registry_after(registry, message),
            Change::Started { request_id, responder } => registry.insert(request_id, responder),
        };
        let rest = changes.drop_first();
        assert forall|i: int| 0 <= i < rest.len() implies !displaces(
            #[trigger] rest[i],
            request_id,
        ) by {}
        lemma_responder_stays(next, request_id, rest);
    }
}

/// While a responder works under an identity, no request for that identity
/// starts another: each is passed to the one at work. So a responder is
/// started at most once.
pub proof fn lemma_started_at_most_once(request_id: usize, request: Request)
    ensures
        route_of(true, Message::Request { request_id, request }) == Route::Update,
        route_of(false, Message::Request { request_id, request }) != Route::Update,
{
}

/// `Cancel` and `Done` leave no responder under their identity, and a second
/// one of them for the same identity finds none: it is dropped.
pub proof fn lemma_ended_request_is_gone<R>(registry: Map<usize, R>, message: Message)
    requires
        message is Cancel || message is Done,
    ensures
        !registry_after(registry, message).contains_key(message.spec_request_id()),
        route_of(
            registry_after(registry, message).contains_key(message.spec_request_id()),
            Message::Done { request_id: message.spec_request_id() },
        ) == Route::Unknown,
        route_of(
            registry_after(registry, message).contains_key(message.spec_request_id()),
            Message::Cancel { request_id: message.spec_request_id() },
        ) == Route::Unknown,
{
}

} // verus!
