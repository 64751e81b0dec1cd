//! The requester of the Account interface.

use crate::handle_map::{lookup, HandleToken, HandleTokenMap};
use crate::message::{successor, Message, RequestIds};
use crate::reply::{oneshot_channel, Reply};
use crate::request::{
    Application, Request, UserInformation, UserInformationOptions, WindowIdentifier,
};
use crate::requester::{Call, CallKind, Next, Requester, Stage};
use tokio::sync::mpsc::Sender;
use tokio::sync::oneshot::Receiver;
use vstd::prelude::*;

verus! {

/// Requester of the Account interface.
pub struct Account {
    sender: Sender<Message>,
    map: HandleTokenMap,
}

impl Requester for Account {
    closed spec fn tokens(&self) -> Map<Seq<char>, usize> {
        self.map@
    }

    closed spec fn channel(&self) -> Sender<Message> {
        self.sender
    }

    fn new(sender: Sender<Message>) -> (requester: Self) {
        Account { sender, map: HandleTokenMap::new() }
    }

    fn sender(&self) -> (sender: &Sender<Message>) {
        &self.sender
    }

    fn map(&self) -> (map: &HandleTokenMap) {
        &self.map
    }

    fn map_mut(&mut self) -> (map: &mut HandleTokenMap) {
        &mut self.map
    }
}

impl Account {
    /// The protocol layer closed the request of the token: see
    /// [`Requester::send_cancel`].
    pub fn close(&mut self, token: &HandleToken) -> (message: Option<Message>)
        ensures
            final(self).tokens() == old(self).tokens().remove(token@),
            message == match lookup(old(self).tokens(), token@) {
                Some(request_id) => Some(Message::Cancel { request_id }),
                None => None,
            },
    {
        self.send_cancel(token)
    }

    /// Opens the call that asks the user for their account information. The
    /// reply will come through the receiver that is handed back.
    pub fn get_user_information(
        &self,
        ids: &mut RequestIds,
        token: HandleToken,
        app_id: Option<String>,
        window_identifier: Option<WindowIdentifier>,
        options: UserInformationOptions,
    ) -> (out: (Call<UserInformation>, Next<UserInformation>, Receiver<Reply<UserInformation>>))
        ensures
            final(ids).upcoming() == successor(old(ids).upcoming()),
            out.0.token() == token@,
            out.0.spec_request_id() == old(ids).upcoming(),
            out.0.spec_kind() == CallKind::New,
            out.0.spec_stage() == Stage::Sending,
            match out.1 {
                Next::Send(
                    Message::Request {
                        request_id,
                        request: Request::AccountGetUserInformation {
                            application,
                            options: sent_options,
                            ..
                        },
                    },
                ) => {
                    &&& request_id == old(ids).upcoming()
                    &&& application == (Application { app_id, window_identifier })
                    &&& sent_options == options
                },
                _ => false,
            },
    {
        let (sender, receiver) = oneshot_channel();
        let request = Request::AccountGetUserInformation {
            application: Application { app_id, window_identifier },
            options,
            sender,
        };
        let (call, next) = self.send_request(ids, token, request);
        (call, next, receiver)
    }
}

} // verus!
