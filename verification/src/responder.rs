//! What the dispatcher asks of a responder.

use crate::request::Request;
use vstd::prelude::*;

verus! {

/// A responder reacts to a portal request, gathers input from the user and
/// sends the reply through the request's channel, once, however the
/// interaction ends. While it works, more requests for the same identity may
/// reach it through `respond`; if the request gets cancelled, `cancel` is
/// called, which gives the interaction up without blocking.
pub trait Responder {
    fn respond(&self, request: Request);

    fn cancel(&self);
}

} // verus!
