//! Mediation bus of a desktop-portal backend.
//!
//! Requesters turn the calls of the portal interfaces into [`Message`]s, one
//! dispatcher owns the responders that answer them, and every request
//! carries a reply channel that is resolved at most once. The library holds
//! the decisions of both sides; sending, waiting and the dialogs themselves
//! are left to the program around it.

pub mod cli;
pub mod dispatch;
pub mod handle_map;
pub mod log;
pub mod message;
pub mod reply;
pub mod request;
pub mod requester;
pub mod requesters;
pub mod responder;
pub mod responders;
pub mod utils;

pub use cli::Options;
pub use dispatch::Dispatcher;
pub use handle_map::{HandleToken, HandleTokenMap};
pub use message::{Message, RequestIds};
pub use request::{Application, PortalError, Request};
pub use requester::Requester;
pub use responder::Responder;
