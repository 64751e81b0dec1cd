//! The requester's side of the bus: a portal call as a sequence of steps,
//! each of which says what is to be sent or awaited next.

use crate::handle_map::{lookup, HandleToken, HandleTokenMap};
use crate::message::{successor, Message, RequestIds};
use crate::reply::Reply;
use crate::request::{PortalError, Request};
use tokio::sync::mpsc::Sender;
use vstd::prelude::*;
use vstd::string::*;

verus! {

/// The sending half of tokio's bounded channel, through which the requesters
/// reach the dispatcher. The library only holds it for whoever does the
/// sending.
#[verifier::external_type_specification]
#[verifier::external_body]
#[verifier::reject_recursive_types(T)]
pub struct ExMpscSender<T>(tokio::sync::mpsc::Sender<T>);

/// Whether a reply is the failure that stands for every fault between
/// requester and responder.
pub open spec fn is_unknown_failure<T>(reply: Reply<T>) -> bool {
    match reply {
        Err(PortalError::Failed(text)) => text@ == "Unknown error"@,
        _ => false,
    }
}

/// The failure that stands for every fault between requester and responder.
pub fn unknown_failure() -> (error: PortalError)
    ensures
        error is Failed,
        error->Failed_0@ == "Unknown error"@,
{
    PortalError::Failed(String::from_str("Unknown error"))
}

/// Whether a call opens a request or brings more for one that is open.
#[derive(Debug, Clone, Copy, PartialEq, Eq, Structural)]
pub enum CallKind {
    New,
    Update,
}

/// How far a call has come.
#[derive(Debug, Clone, Copy, PartialEq, Eq, Structural)]
pub enum Stage {
    /// Its request is on the way to the dispatcher.
    Sending,
    /// The request was sent; the call waits for the reply.
    Waiting,
    /// The reply is settled; `Done` is on the way to the dispatcher.
    Closing,
    /// The reply has been handed out.
    Finished,
}

/// What happened to a call, without what came with it.
#[derive(Debug, Clone, Copy, PartialEq, Eq, Structural)]
pub enum Turn {
    SentOk,
    SentFailed,
    Replied,
}

/// What a call asks for next, without what goes with it.
#[derive(Debug, Clone, Copy, PartialEq, Eq, Structural)]
pub enum Signal {
    Await,
    Done,
    Return,
}

/// What happened while a call was suspended.
pub enum Event<T> {
    /// The message was handed to the channel (`true`), or the channel was
    /// closed.
    Sent(bool),
    /// The reply channel gave the responder's reply, or broke without one.
    Replied(Option<Reply<T>>),
}

/// What a call asks its driver to do next.
pub enum Next<T> {
    /// Send the message to the dispatcher, then report `Event::Sent`.
    Send(Message),
    /// Wait on the reply channel, then report `Event::Replied`.
    Await,
    /// Return the reply to the caller: the call is over.
    Return(Reply<T>),
}

impl<T> Event<T> {
    pub open spec fn turn(&self) -> Turn {
        match self {
            Event::Sent(true) => Turn::SentOk,
            Event::Sent(false) => Turn::SentFailed,
            Event::Replied(_) => Turn::Replied,
        }
    }
}

/// Whether the stage awaits the turn. A turn that is not awaited breaks the
/// call off as a fault does.
pub open spec fn in_turn(stage: Stage, turn: Turn) -> bool {
    match stage {
        Stage::Sending => turn != Turn::Replied,
        Stage::Waiting => turn == Turn::Replied,
        Stage::Closing => turn != Turn::Replied,
        Stage::Finished => false,
    }
}

/// The stage that follows a turn.
pub open spec fn stage_after(kind: CallKind, stage: Stage, turn: Turn) -> Stage {
    match stage {
        Stage::Sending if turn == Turn::SentOk => Stage::Waiting,
        Stage::Sending | Stage::Waiting => match kind {
            CallKind::New => Stage::Closing,
            CallKind::Update => Stage::Finished,
        },
        Stage::Closing | Stage::Finished => Stage::Finished,
    }
}

/// What the call asks for after a turn.
pub open spec fn signal_after(kind: CallKind, stage: Stage, turn: Turn) -> Signal {
    match stage {
        Stage::Sending if turn == Turn::SentOk => Signal::Await,
        Stage::Sending | Stage::Waiting => match kind {
            CallKind::New => Signal::Done,
            CallKind::Update => Signal::Return,
        },
        Stage::Closing | Stage::Finished => Signal::Return,
    }
}

/// Whether `reply` is what a call settles on when `event` ends its stage:
/// the responder's reply where the call waited for it and it came, else the
/// unknown failure.
pub open spec fn settles<T>(stage: Stage, event: Event<T>, reply: Reply<T>) -> bool {
    match (stage, event) {
        (Stage::Waiting, Event::Replied(Some(given))) => reply == given,
        _ => is_unknown_failure(reply),
    }
}

/// The requester's mappings after a turn of one of its calls: a new request
/// is entered once it was sent, and leaves when its reply is settled.
pub open spec fn tokens_after(
    tokens: Map<Seq<char>, usize>,
    kind: CallKind,
    stage: Stage,
    turn: Turn,
    token: Seq<char>,
    request_id: usize,
) -> Map<Seq<char>, usize> {
    if kind == CallKind::New && stage == Stage::Sending && turn == Turn::SentOk {
        tokens.insert(token, request_id)
    } else if kind == CallKind::New && signal_after(kind, stage, turn) == Signal::Done {
        tokens.remove(token)
    } else {
        tokens
    }
}

enum Progress<T> {
    Sending,
    Waiting,
    Closing(Reply<T>),
    Finished,
}

/// One portal call on its way through the bus. Whoever drives it does what
/// [`Next`] says and reports back with an [`Event`], until the call returns
/// its reply.
pub struct Call<T> {
    token: HandleToken,
    request_id: usize,
    kind: CallKind,
    progress: Progress<T>,
}

impl<T> Call<T> {
    pub closed spec fn token(&self) -> Seq<char> {
        self.token@
    }

    pub closed spec fn spec_request_id(&self) -> usize {
        self.request_id
    }

    pub closed spec fn spec_kind(&self) -> CallKind {
        self.kind
    }

    pub closed spec fn spec_stage(&self) -> Stage {
        match self.progress {
            Progress::Sending => Stage::Sending,
            Progress::Waiting => Stage::Waiting,
            Progress::Closing(_) => Stage::Closing,
            Progress::Finished => Stage::Finished,
        }
    }

    /// The reply that a closing call will return.
    pub closed spec fn settled(&self) -> Option<Reply<T>> {
        match self.progress {
            Progress::Closing(reply) => Some(reply),
            _ => None,
        }
    }

    /// The handle token under which the call was made.
    pub fn handle_token(&self) -> (token: &HandleToken)
        ensures
            token@ == self.token(),
    {
        &self.token
    }

    /// The identity of the call's request.
    #[verifier::when_used_as_spec(spec_request_id)]
    pub fn request_id(&self) -> (id: usize)
        ensures
            id == self.spec_request_id(),
    {
        self.request_id
    }

    #[verifier::when_used_as_spec(spec_kind)]
    pub fn kind(&self) -> (kind: CallKind)
        ensures
            kind == self.spec_kind(),
    {
        self.kind
    }

    #[verifier::when_used_as_spec(spec_stage)]
    pub fn stage(&self) -> (stage: Stage)
        ensures
            stage == self.spec_stage(),
            (stage == Stage::Closing) == (self.settled() is Some),
    {
        match self.progress {
            Progress::Sending => Stage::Sending,
            Progress::Waiting => Stage::Waiting,
            Progress::Closing(_) => Stage::Closing,
            Progress::Finished => Stage::Finished,
        }
    }

    /// Whether the call awaits the event.
    pub fn expects(&self, event: &Event<T>) -> (awaited: bool)
        ensures
            awaited == in_turn(self.spec_stage(), event.turn()),
    {
        match (&self.progress, event) {
            (Progress::Sending, Event::Sent(_)) => true,
            (Progress::Waiting, Event::Replied(_)) => true,
            (Progress::Closing(_), Event::Sent(_)) => true,
            _ => false,
        }
    }

    /// Takes the call one step on. While its request is being sent: once it
    /// is sent, a new request is entered in the requester's map, and the call
    /// waits for the reply. While it waits: the reply settles the call. A
    /// channel that fails, a reply channel that breaks, and an event that the
    /// call does not await settle it on the unknown failure. A settled new
    /// request leaves the map and sends `Done` before it returns its reply; a
    /// settled update returns at once.
    pub fn advance<R: Requester>(&mut self, requester: &mut R, event: Event<T>) -> (next: Next<T>)
        ensures
            final(self).token() == old(self).token(),
            final(self).spec_request_id() == old(self).spec_request_id(),
            final(self).spec_kind() == old(self).spec_kind(),
            final(self).spec_stage() == stage_after(
                old(self).spec_kind(),
                old(self).spec_stage(),
                event.turn(),
            ),
            final(requester).tokens() == tokens_after(
                old(requester).tokens(),
                old(self).spec_kind(),
                old(self).spec_stage(),
                event.turn(),
                old(self).token(),
                old(self).spec_request_id(),
            ),
            final(requester).channel() == old(requester).channel(),
            match signal_after(old(self).spec_kind(), old(self).spec_stage(), event.turn()) {
                Signal::Await => next is Await,
                Signal::Done => {
                    &&& next is Send
                    &&& next->Send_0 == (Message::Done { request_id: old(self).spec_request_id() })
                    &&& final(self).settled() is Some
                    &&& settles(old(self).spec_stage(), event, final(self).settled()->Some_0)
                },
                Signal::Return => {
                    &&& next is Return
                    &&& if old(self).spec_stage() == Stage::Closing {
                        old(self).settled() == Some(next->Return_0)
                    } else {
                        settles(old(self).spec_stage(), event, next->Return_0)
                    }
                },
            },
    {
        let mut progress = Progress::Finished;
        std::mem::swap(&mut progress, &mut self.progress);
        match progress {
            Progress::Sending => {
                if let Event::Sent(true) = event {
                    if let CallKind::New = self.kind {
                        requester.map_mut().insert(self.token.clone(), self.request_id);
                    }
                    self.progress = Progress::Waiting;
                    Next::Await
                } else {
                    self.settle(requester, Err(unknown_failure()))
                }
            },
            Progress::Waiting => {
                let reply = match event {
                    Event::Replied(Some(reply)) => reply,
                    _ => Err(unknown_failure()),
                };
                self.settle(requester, reply)
            },
            Progress::Closing(reply) => Next::Return(reply),
            Progress::Finished => Next::Return(Err(unknown_failure())),
        }
    }

    /// Ends the call on the reply: a new request leaves the map and owes the
    /// dispatcher its `Done`, an update returns.
    fn settle<R: Requester>(&mut self, requester: &mut R, reply: Reply<T>) -> (next: Next<T>)
        requires
            old(self).spec_stage() == Stage::Finished,
        ensures
            final(self).token() == old(self).token(),
            final(self).spec_request_id() == old(self).spec_request_id(),
            final(self).spec_kind() == old(self).spec_kind(),
            final(requester).channel() == old(requester).channel(),
            match old(self).spec_kind() {
                CallKind::New => {
                    &&& final(self).spec_stage() == Stage::Closing
                    &&& final(self).settled() == Some(reply)
                    &&& next is Send
                    &&& next->Send_0 == (Message::Done { request_id: old(self).spec_request_id() })
                    &&& final(requester).tokens() == old(requester).tokens().remove(
                        old(self).token(),
                    )
                },
                CallKind::Update => {
                    &&& final(self).spec_stage() == Stage::Finished
                    &&& next is Return
                    &&& next->Return_0 == reply
                    &&& final(requester).tokens() == old(requester).tokens()
                },
            },
    {
        match self.kind {
            CallKind::New => {
                let message = requester.send_done(&self.token, self.request_id);
                self.progress = Progress::Closing(reply);
                Next::Send(message)
            },
            CallKind::Update => Next::Return(reply),
        }
    }
}

/// A requester is responsible for getting the portal requests of one
/// interface to the dispatcher. It keeps the map from the protocol layer's
/// handle tokens to the identities of its open requests, and the channel
/// through which its messages go.
pub trait Requester: Sized {
    /// The requester's live mappings.
    spec fn tokens(&self) -> Map<Seq<char>, usize>;

    /// The channel that the requester's messages go through.
    spec fn channel(&self) -> Sender<Message>;

    /// A requester without open requests, whose messages go through the
    /// channel.
    fn new(sender: Sender<Message>) -> (requester: Self)
        ensures
            requester.tokens() == Map::<Seq<char>, usize>::empty(),
            requester.channel() == sender,
    ;

    fn sender(&self) -> (sender: &Sender<Message>)
        ensures
            *sender == self.channel(),
    ;

    fn map(&self) -> (map: &HandleTokenMap)
        ensures
            map@ == self.tokens(),
    ;

    fn map_mut(&mut self) -> (map: &mut HandleTokenMap)
        ensures
            map@ == old(self).tokens(),
            final(self).tokens() == final(map)@,
            final(self).channel() == old(self).channel(),
    ;

    /// The caller gave the request up: its mapping leaves the map, and
    /// `Cancel` is to be sent for it. For a token without a mapping (the
    /// request may have ended a moment ago) nothing is to be sent.
    fn send_cancel(&mut self, token: &HandleToken) -> (message: Option<Message>)
        ensures
            final(self).tokens() == old(self).tokens().remove(token@),
            final(self).channel() == old(self).channel(),
            message == match lookup(old(self).tokens(), token@) {
                Some(request_id) => Some(Message::Cancel { request_id }),
                None => None,
            },
    {
        match self.map_mut().take_for_id(token) {
            Some(request_id) => Some(Message::cancel(request_id)),
            None => None,
        }
    }

    /// The request has its reply: the token's mapping leaves the map, and
    /// `Done` is to be sent for the request, whether or not the mapping was
    /// still there.
    fn send_done(&mut self, token: &HandleToken, request_id: usize) -> (message: Message)
        ensures
            final(self).tokens() == old(self).tokens().remove(token@),
            final(self).channel() == old(self).channel(),
            message == (Message::Done { request_id }),
    {
        let _ = self.map_mut().take_for_id(token);
        Message::done(request_id)
    }

    /// Opens a call for a new request: gives the request the next identity
    /// and hands back the message to send first. The map is not touched
    /// before the message is sent.
    fn send_request<T>(&self, ids: &mut RequestIds, token: HandleToken, request: Request) -> (out: (
        Call<T>,
        Next<T>,
    ))
        ensures
            out.0.token() == token@,
            out.0.spec_request_id() == old(ids).upcoming(),
            final(ids).upcoming() == successor(old(ids).upcoming()),
            out.0.spec_kind() == CallKind::New,
            out.0.spec_stage() == Stage::Sending,
            out.1 is Send,
            out.1->Send_0 == (Message::Request { request_id: old(ids).upcoming(), request }),
    {
        let (request_id, message) = Message::request(ids, request);
        let call = Call { token, request_id, kind: CallKind::New, progress: Progress::Sending };
        (call, Next::Send(message))
    }

    /// Opens a call that brings more for the open request of the token. The
    /// request keeps its identity. For a token without a mapping there is
    /// nothing to update: the call is over at once, with the unknown failure,
    /// and no message is to be sent.
    fn update_request<T>(&self, token: HandleToken, request: Request) -> (out: (Call<T>, Next<T>))
        ensures
            out.0.token() == token@,
            out.0.spec_kind() == CallKind::Update,
            match lookup(self.tokens(), token@) {
                Some(request_id) => {
                    &&& out.0.spec_request_id() == request_id
                    &&& out.0.spec_stage() == Stage::Sending
                    &&& out.1 is Send
                    &&& out.1->Send_0 == (Message::Request { request_id, request })
                },
                None => {
                    &&& out.0.spec_stage() == Stage::Finished
                    &&& out.1 is Return
                    &&& is_unknown_failure(out.1->Return_0)
                },
            },
    {
        match self.map().peek(&token) {
            Some(request_id) => {
                let message = Message::request_with_id(request_id, request);
                let call = Call {
                    token,
                    request_id,
                    kind: CallKind::Update,
                    progress: Progress::Sending,
                };
                (call, Next::Send(message))
            },
            None => {
                let call = Call {
                    token,
                    request_id: 0,
                    kind: CallKind::Update,
                    progress: Progress::Finished,
                };
                (call, Next::Return(Err(unknown_failure())))
            },
        }
    }
}

/// The stage of a call after a run of turns.
pub open spec fn stage_after_all(kind: CallKind, stage: Stage, turns: Seq<Turn>) -> Stage
    decreases turns.len(),
{
    if turns.len() == 0 {
        stage
    } else {
        stage_after_all(kind, stage_after(kind, stage, turns[0]), turns.drop_first())
    }
}

/// How many times a call asks for `Done` to be sent over a run of turns.
pub open spec fn dones_sent(kind: CallKind, stage: Stage, turns: Seq<Turn>) -> nat
    decreases turns.len(),
{
    if turns.len() == 0 {
        0
    } else {
        let first: nat = if signal_after(kind, stage, turns[0]) == Signal::Done {
            1
        } else {
            0
        };
        first + dones_sent(kind, stage_after(kind, stage, turns[0]), turns.drop_first())
    }
}

/// How many times a call at the stage has yet to ask for `Done`: once for a
/// new request whose reply is not settled, else never.
pub open spec fn dones_owed(kind: CallKind, stage: Stage) -> nat {
    if kind == CallKind::New && (stage == Stage::Sending || stage == Stage::Waiting) {
        1
    } else {
        0
    }
}

/// Over any run of turns, what a call has sent of `Done` and what it still
/// owes add up to what it owed at the start.
pub proof fn lemma_dones_balance(kind: CallKind, stage: Stage, turns: Seq<Turn>)
    ensures
        dones_sent(kind, stage, turns) + dones_owed(kind, stage_after_all(kind, stage, turns))
            == dones_owed(kind, stage),
    decreases turns.len(),
{
    if turns.len() > 0 {
        lemma_dones_balance(kind, stage_after(kind, stage, turns[0]), turns.drop_first());
    }
}

/// A call for a new request sends `Done` exactly once before it returns its
/// reply, whether the reply is the responder's or a failure, and never more
/// than once however the turns come.
pub proof fn lemma_one_done_per_new_request(turns: Seq<Turn>)
    ensures
        dones_sent(CallKind::New, Stage::Sending, turns) <= 1,
        stage_after_all(CallKind::New, Stage::Sending, turns) == Stage::Finished ==> dones_sent(
            CallKind::New,
            Stage::Sending,
            turns,
        ) == 1,
        stage_after_all(CallKind::New, Stage::Sending, turns) == Stage::Closing ==> dones_sent(
            CallKind::New,
            Stage::Sending,
            turns,
        ) == 1,
{
    lemma_dones_balance(CallKind::New, Stage::Sending, turns);
}

/// A call that brings more for an open request never sends `Done`: the
/// request stays open.
pub proof fn lemma_no_done_per_update(stage: Stage, turns: Seq<Turn>)
    ensures
        dones_sent(CallKind::Update, stage, turns) == 0,
{
    lemma_dones_balance(CallKind::Update, stage, turns);
}

/// A call is over after three turns at the latest, whatever they are.
pub proof fn lemma_call_ends(kind: CallKind, first: Turn, second: Turn, third: Turn)
    ensures
        stage_after_all(kind, Stage::Sending, seq![first, second, third]) == Stage::Finished,
{
    let turns = seq![first, second, third];
    let after_first = stage_after(kind, Stage::Sending, first);
    let after_second = stage_after(kind, after_first, second);
    assert(turns.drop_first() =~= seq![second, third]);
    assert(turns.drop_first().drop_first() =~= seq![third]);
    assert(turns.drop_first().drop_first().drop_first() =~= Seq::<Turn>::empty());
    assert(stage_after_all(kind, stage_after(kind, after_second, third), Seq::<Turn>::empty())
        == stage_after(kind, after_second, third));
    assert(stage_after_all(kind, after_second, seq![third]) == stage_after(
        kind,
        after_second,
        third,
    ));
    assert(stage_after_all(kind, after_first, seq![second, third]) == stage_after_all(
        kind,
        after_second,
        seq![third],
    ));
}

} // verus!
