//! The requester of the AppChooser interface.

use crate::handle_map::{lookup, HandleToken, HandleTokenMap};
use crate::message::{successor, Message, RequestIds};
use crate::reply::{oneshot_channel, Reply};
use crate::request::{Application, Choice, ChooserOptions, Request, WindowIdentifier};
use crate::requester::{is_unknown_failure, Call, CallKind, Next, Requester, Stage};
use tokio::sync::mpsc::Sender;
use tokio::sync::oneshot::Receiver;
use vstd::prelude::*;

verus! {

/// Requester of the AppChooser interface.
pub struct AppChooser {
    sender: Sender<Message>,
    map: HandleTokenMap,
}

impl Requester for AppChooser {
    closed spec fn tokens(&self) -> Map<Seq<char>, usize> {
        self.map@
    }

    closed spec fn channel(&self) -> Sender<Message> {
        self.sender
    }

    fn new(sender: Sender<Message>) -> (requester: Self) {
        AppChooser { sender, map: HandleTokenMap::new() }
    }

    fn sender(&self) -> (sender: &Sender<Message>) {
        &self.sender
    }

    fn map(&self) -> (map: &HandleTokenMap) {
        &self.map
    }

    fn map_mut(&mut self) -> (map: &mut HandleTokenMap) {
        &mut self.map
    }
}

impl AppChooser {
    /// The protocol layer closed the request of the token: see
    /// [`Requester::send_cancel`].
    pub fn close(&mut self, token: &HandleToken) -> (message: Option<Message>)
        ensures
            final(self).tokens() == old(self).tokens().remove(token@),
            message == match lookup(old(self).tokens(), token@) {
                Some(request_id) => Some(Message::Cancel { request_id }),
                None => None,
            },
    {
        self.send_cancel(token)
    }

    /// Opens the call that lets the user choose one of the applications.
    pub fn choose_application(
        &self,
        ids: &mut RequestIds,
        token: HandleToken,
        app_id: Option<String>,
        window_identifier: Option<WindowIdentifier>,
        choices: Vec<String>,
        options: ChooserOptions,
    ) -> (out: (Call<Choice>, Next<Choice>, Receiver<Reply<Choice>>))
        ensures
            final(ids).upcoming() == successor(old(ids).upcoming()),
            out.0.token() == token@,
            out.0.spec_request_id() == old(ids).upcoming(),
            out.0.spec_kind() == CallKind::New,
            out.0.spec_stage() == Stage::Sending,
            match out.1 {
                Next::Send(
                    Message::Request {
                        request_id,
                        request: Request::AppChooserChooseApplication {
                            application,
                            choices: sent_choices,
                            options: sent_options,
                            ..
                        },
                    },
                ) => {
                    &&& request_id == old(ids).upcoming()
                    &&& application == (Application { app_id, window_identifier })
                    &&& sent_choices == choices
                    &&& sent_options == options
                },
                _ => false,
            },
    {
        let (sender, receiver) = oneshot_channel();
        let request = Request::AppChooserChooseApplication {
            application: Application { app_id, window_identifier },
            choices,
            options,
            sender,
        };
        let (call, next) = self.send_request(ids, token, request);
        (call, next, receiver)
    }

    /// Opens the call that brings new choices to the open request of the
    /// handle. Where the handle has no open request, the call is over at
    /// once, with the unknown failure and nothing to send.
    pub fn update_choices(&self, handle: HandleToken, choices: Vec<String>) -> (out: (
        Call<()>,
        Next<()>,
        Receiver<Reply<()>>,
    ))
        ensures
            out.0.token() == handle@,
            out.0.spec_kind() == CallKind::Update,
            match lookup(self.tokens(), handle@) {
                Some(known) => {
                    &&& out.0.spec_request_id() == known
                    &&& out.0.spec_stage() == Stage::Sending
                    &&& match out.1 {
                        Next::Send(
                            Message::Request {
                                request_id,
                                request: Request::AppChooserUpdateChoices {
                                    choices: sent_choices,
                                    ..
                                },
                            },
                        ) => request_id == known && sent_choices == choices,
                        _ => false,
                    }
                },
                None => {
                    &&& out.0.spec_stage() == Stage::Finished
                    &&& out.1 is Return
                    &&& is_unknown_failure(out.1->Return_0)
                },
            },
    {
        let (sender, receiver) = oneshot_channel();
        let request = Request::AppChooserUpdateChoices { choices, sender };
        let (call, next) = self.update_request(handle, request);
        (call, next, receiver)
    }
}

} // verus!
