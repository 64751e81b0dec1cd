//! Request identities, and the messages from the requesters to the
//! dispatcher.

use crate::request::Request;
use vstd::prelude::*;

verus! {

/// The identity that follows `id`. At the end of the integer's range the
/// counter starts over at zero, as an atomic add does.
pub open spec fn successor(id: usize) -> usize {
    if id == usize::MAX {
        0
    } else {
        (id + 1) as usize
    }
}

/// Source of request identities: hands out 1, 2, 3, ... and never the same
/// identity twice while the counter stays within its integer width.
pub struct RequestIds {
    upcoming: usize,
}

impl RequestIds {
    /// The identity that the next call of [`RequestIds::next`] returns.
    pub closed spec fn upcoming(&self) -> usize {
        self.upcoming
    }

    /// The identity returned by the call that follows `n` earlier calls.
    pub open spec fn nth(&self, n: nat) -> usize
        decreases n,
    {
        if n == 0 {
            self.upcoming()
        } else {
            successor(self.nth((n - 1) as nat))
        }
    }

    /// A source whose first identity is 1.
    pub fn new() -> (ids: Self)
        ensures
            ids.upcoming() == 1,
    {
        RequestIds { upcoming: 1 }
    }

    /// Hands out the upcoming identity and moves on to its successor.
    pub fn next(&mut self) -> (id: usize)
        ensures
            id == old(self).upcoming(),
            final(self).upcoming() == successor(id),
    {
        let id: usize = self.upcoming;
        self.upcoming = if id == usize::MAX {
            0
        } else {
            id + 1
        };
        id
    }

    /// While the counter has not run over, the call after `n` others returns
    /// the upcoming identity plus `n`.
    pub proof fn lemma_nth_is_offset(&self, n: nat)
        requires
            self.upcoming() + n <= usize::MAX,
        ensures
            self.nth(n) == self.upcoming() + n,
        decreases n,
    {
        if n > 0 {
            self.lemma_nth_is_offset((n - 1) as nat);
        }
    }

    /// A call shifts the sequence of identities by one: what was the identity
    /// of call `n + 1` before is that of call `n` afterwards.
    pub proof fn lemma_next_shifts(before: Self, after: Self, n: nat)
        requires
            after.upcoming() == successor(before.upcoming()),
        ensures
            after.nth(n) == before.nth(n + 1),
        decreases n,
    {
        assert(before.nth(n + 1) == successor(before.nth(n)));
        if n > 0 {
            Self::lemma_next_shifts(before, after, (n - 1) as nat);
        }
    }

    /// Identities are strictly increasing, hence pairwise distinct, over any
    /// run of calls that stays within the integer width.
    pub proof fn lemma_ids_increase(&self, i: nat, j: nat)
        requires
            i < j,
            self.upcoming() + j <= usize::MAX,
        ensures
            self.nth(i) < self.nth(j),
            self.nth(i) != self.nth(j),
    {
        self.lemma_nth_is_offset(i);
        self.lemma_nth_is_offset(j);
    }

    /// A fresh source hands out 1, 2, 3, ...: call number `n`, counted from
    /// zero, returns `n + 1`.
    pub proof fn lemma_fresh_ids_count_from_one(&self, n: nat)
        requires
            self.upcoming() == 1,
            n < usize::MAX,
        ensures
            self.nth(n) == n + 1,
    {
        self.lemma_nth_is_offset(n);
    }
}

/// A message from the requesters to the dispatcher.
#[derive(Debug)]
pub enum Message {
    /// The caller has cancelled the request of the given identity.
    Cancel { request_id: usize },
    /// The requester has the reply for the request of the given identity: its
    /// responder can be closed now.
    Done { request_id: usize },
    /// A request for the responder of the given identity: a new one, or more
    /// for one that is being worked on.
    Request { request_id: usize, request: Request },
}

impl Message {
    /// The identity of the request that the message is about.
    pub open spec fn spec_request_id(&self) -> usize {
        match self {
            Message::Cancel { request_id } => *request_id,
            Message::Done { request_id } => *request_id,
            Message::Request { request_id, .. } => *request_id,
        }
    }

    /// The identity of the request that the message is about.
    #[verifier::when_used_as_spec(spec_request_id)]
    pub fn request_id(&self) -> (id: usize)
        ensures
            id == self.spec_request_id(),
    {
        match self {
            Message::Cancel { request_id } => *request_id,
            Message::Done { request_id } => *request_id,
            Message::Request { request_id, .. } => *request_id,
        }
    }

    #[must_use]
    pub fn cancel(request_id: usize) -> (message: Self)
        ensures
            message == (Message::Cancel { request_id }),
    {
        Message::Cancel { request_id }
    }

    #[must_use]
    pub fn done(request_id: usize) -> (message: Self)
        ensures
            message == (Message::Done { request_id }),
    {
        Message::Done { request_id }
    }

    /// Wraps a new request under the next identity of `ids`, and returns that
    /// identity with the message.
    pub fn request(ids: &mut RequestIds, request: Request) -> (out: (usize, Self))
        ensures
            out.0 == old(ids).upcoming(),
            final(ids).upcoming() == successor(out.0),
            out.1 == (Message::Request { request_id: out.0, request }),
    {
        let request_id = ids.next();
        let message = Message::Request { request_id, request };
        (request_id, message)
    }

    /// Wraps a request for the responder that works under a known identity.
    #[must_use]
    pub fn request_with_id(request_id: usize, request: Request) -> (message: Self)
        ensures
            message == (Message::Request { request_id, request }),
    {
        Message::Request { request_id, request }
    }
}

} // verus!
