//! The reply channel of a request, which carries one answer from the
//! responder back to the requester.

use crate::request::PortalError;
use vstd::prelude::*;

verus! {

/// The sending half of tokio's one-shot channel: it carries one value to the
/// receiving half and is used up by sending.
#[verifier::external_type_specification]
#[verifier::external_body]
#[verifier::reject_recursive_types(T)]
pub struct ExOneshotSender<T>(tokio::sync::oneshot::Sender<T>);

/// The receiving half of tokio's one-shot channel.
#[verifier::external_type_specification]
#[verifier::external_body]
#[verifier::reject_recursive_types(T)]
pub struct ExOneshotReceiver<T>(tokio::sync::oneshot::Receiver<T>);

/// The error with which tokio's receiving half ends when the sending half is
/// dropped unused.
#[verifier::external_type_specification]
#[verifier::external_body]
pub struct ExOneshotRecvError(tokio::sync::oneshot::error::RecvError);

/// What a responder answers: the operation's result or one of the portal's
/// failure kinds.
pub type Reply<T> = Result<T, PortalError>;

/// Calls `tokio::sync::oneshot::channel`, which makes the two halves of a new
/// one-shot channel. Nothing is claimed of them.
#[verifier::external_body]
pub(crate) fn oneshot_channel<T>() -> (halves: (
    tokio::sync::oneshot::Sender<T>,
    tokio::sync::oneshot::Receiver<T>,
)) {
    tokio::sync::oneshot::channel()
}

/// Calls `tokio::sync::oneshot::Sender::send`. Whether the value arrives
/// depends on whether the receiving half is still there; when it does not
/// arrive, the call hands the same value back.
#[verifier::external_body]
pub(crate) fn oneshot_send<T>(sender: tokio::sync::oneshot::Sender<T>, value: T) -> (sent: Result<
    (),
    T,
>)
    ensures
        sent is Err ==> sent->Err_0 == value,
{
    sender.send(value)
}

/// How an attempt to answer a request ended.
#[derive(Debug, Clone, Copy, PartialEq, Eq, Structural)]
pub enum Delivery {
    /// The answer was handed to the channel.
    Delivered,
    /// The requester no longer waits for the answer.
    ReceiverGone,
    /// The request had been answered before, or the slot never held a
    /// channel: the answer was dropped.
    AlreadyResolved,
}

/// How a send on the reply channel ended: the channel takes the answer
/// unless the requester has dropped its half.
pub fn delivery_of<T>(sent: &Result<(), T>) -> (delivery: Delivery)
    ensures
        delivery == match sent {
            Ok(_) => Delivery::Delivered,
            Err(_) => Delivery::ReceiverGone,
        },
{
    match sent {
        Ok(_) => Delivery::Delivered,
        Err(_) => Delivery::ReceiverGone,
    }
}

/// The place where a responder keeps the reply channel of the request that it
/// works on. It lets the request be answered once and tells a second attempt
/// apart.
#[verifier::reject_recursive_types(T)]
pub struct ReplySlot<T> {
    sender: Option<tokio::sync::oneshot::Sender<Reply<T>>>,
}

impl<T> ReplySlot<T> {
    /// The channel that the slot holds, while the request awaits its answer.
    pub closed spec fn channel(&self) -> Option<tokio::sync::oneshot::Sender<Reply<T>>> {
        self.sender
    }

    /// Whether the request still awaits its answer.
    pub open spec fn is_open(&self) -> bool {
        self.channel() is Some
    }

    /// A slot without a channel: every answer counts as a second one.
    pub fn empty() -> (slot: Self)
        ensures
            slot.channel() is None,
    {
        ReplySlot { sender: None }
    }

    /// A slot that holds the reply channel of a request.
    pub fn new(sender: tokio::sync::oneshot::Sender<Reply<T>>) -> (slot: Self)
        ensures
            slot.channel() == Some(sender),
    {
        ReplySlot { sender: Some(sender) }
    }

    /// Puts the reply channel of a request into the slot, in place of what it
    /// held.
    pub fn set(&mut self, sender: tokio::sync::oneshot::Sender<Reply<T>>)
        ensures
            final(self).channel() == Some(sender),
    {
        self.sender = Some(sender);
    }

    pub fn has_sender(&self) -> (open: bool)
        ensures
            open == self.is_open(),
    {
        self.sender.is_some()
    }

    /// Answers the request. The first answer goes to the channel and closes
    /// the slot; any later one is reported as `AlreadyResolved` and dropped.
    pub fn resolve(&mut self, response: Reply<T>) -> (delivery: Delivery)
        ensures
            !final(self).is_open(),
            (delivery == Delivery::AlreadyResolved) == !old(self).is_open(),
    {
        match self.sender.take() {
            Some(sender) => delivery_of(&oneshot_send(sender, response)),
            None => Delivery::AlreadyResolved,
        }
    }
}

impl<T> Default for ReplySlot<T> {
    /// A slot without a channel.
    fn default() -> (slot: Self)
        ensures
            slot.channel() is None,
    {
        ReplySlot { sender: None }
    }
}

} // verus!
