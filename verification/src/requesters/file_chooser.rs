//! The requester of the FileChooser interface.

use crate::handle_map::{lookup, HandleToken, HandleTokenMap};
use crate::message::{successor, Message, RequestIds};
use crate::reply::{oneshot_channel, Reply};
use crate::request::{
    Application, OpenFileOptions, Request, SaveFileOptions, SaveFilesOptions, SelectedFiles,
    WindowIdentifier,
};
use crate::requester::{Call, CallKind, Next, Requester, Stage};
use tokio::sync::mpsc::Sender;
use tokio::sync::oneshot::Receiver;
use vstd::prelude::*;
use vstd::string::*;

verus! {

/// Requester of the FileChooser interface.
pub struct FileChooser {
    sender: Sender<Message>,
    map: HandleTokenMap,
}

impl Requester for FileChooser {
    closed spec fn tokens(&self) -> Map<Seq<char>, usize> {
        self.map@
    }

    closed spec fn channel(&self) -> Sender<Message> {
        self.sender
    }

    fn new(sender: Sender<Message>) -> (requester: Self) {
        FileChooser { sender, map: HandleTokenMap::new() }
    }

    fn sender(&self) -> (sender: &Sender<Message>) {
        &self.sender
    }

    fn map(&self) -> (map: &HandleTokenMap) {
        &self.map
    }

    fn map_mut(&mut self) -> (map: &mut HandleTokenMap) {
        &mut self.map
    }
}

impl FileChooser {
    /// The protocol layer closed the request of the token: see
    /// [`Requester::send_cancel`].
    pub fn close(&mut self, token: &HandleToken) -> (message: Option<Message>)
        ensures
            final(self).tokens() == old(self).tokens().remove(token@),
            message == match lookup(old(self).tokens(), token@) {
                Some(request_id) => Some(Message::Cancel { request_id }),
                None => None,
            },
    {
        self.send_cancel(token)
    }

    /// Opens the call that lets the user pick files to open.
    pub fn open_file(
        &self,
        ids: &mut RequestIds,
        token: HandleToken,
        app_id: Option<String>,
        window_identifier: Option<WindowIdentifier>,
        title: &str,
        options: OpenFileOptions,
    ) -> (out: (Call<SelectedFiles>, Next<SelectedFiles>, Receiver<Reply<SelectedFiles>>))
        ensures
            final(ids).upcoming() == successor(old(ids).upcoming()),
            out.0.token() == token@,
            out.0.spec_request_id() == old(ids).upcoming(),
            out.0.spec_kind() == CallKind::New,
            out.0.spec_stage() == Stage::Sending,
            match out.1 {
                Next::Send(
                    Message::Request {
                        request_id,
                        request: Request::FileChooserOpenFile {
                            application,
                            title: sent_title,
                            options: sent_options,
                            ..
                        },
                    },
                ) => {
                    &&& request_id == old(ids).upcoming()
                    &&& application == (Application { app_id, window_identifier })
                    &&& sent_title@ == title@
                    &&& sent_options == options
                },
                _ => false,
            },
    {
        let (sender, receiver) = oneshot_channel();
        let request = Request::FileChooserOpenFile {
            application: Application { app_id, window_identifier },
            title: String::from_str(title),
            options,
            sender,
        };
        let (call, next) = self.send_request(ids, token, request);
        (call, next, receiver)
    }

    /// Opens the call that lets the user pick where to save a file.
    pub fn save_file(
        &self,
        ids: &mut RequestIds,
        token: HandleToken,
        app_id: Option<String>,
        window_identifier: Option<WindowIdentifier>,
        title: &str,
        options: SaveFileOptions,
    ) -> (out: (Call<SelectedFiles>, Next<SelectedFiles>, Receiver<Reply<SelectedFiles>>))
        ensures
            final(ids).upcoming() == successor(old(ids).upcoming()),
            out.0.token() == token@,
            out.0.spec_request_id() == old(ids).upcoming(),
            out.0.spec_kind() == CallKind::New,
            out.0.spec_stage() == Stage::Sending,
            match out.1 {
                Next::Send(
                    Message::Request {
                        request_id,
                        request: Request::FileChooserSaveFile {
                            application,
                            title: sent_title,
                            options: sent_options,
                            ..
                        },
                    },
                ) => {
                    &&& request_id == old(ids).upcoming()
                    &&& application == (Application { app_id, window_identifier })
                    &&& sent_title@ == title@
                    &&& sent_options == options
                },
                _ => false,
            },
    {
        let (sender, receiver) = oneshot_channel();
        let request = Request::FileChooserSaveFile {
            application: Application { app_id, window_identifier },
            title: String::from_str(title),
            options,
            sender,
        };
        let (call, next) = self.send_request(ids, token, request);
        (call, next, receiver)
    }

    /// Opens the call that lets the user pick the folder to save several
    /// files in.
    pub fn save_files(
        &self,
        ids: &mut RequestIds,
        token: HandleToken,
        app_id: Option<String>,
        window_identifier: Option<WindowIdentifier>,
        title: &str,
        options: SaveFilesOptions,
    ) -> (out: (Call<SelectedFiles>, Next<SelectedFiles>, Receiver<Reply<SelectedFiles>>))
        ensures
            final(ids).upcoming() == successor(old(ids).upcoming()),
            out.0.token() == token@,
            out.0.spec_request_id() == old(ids).upcoming(),
            out.0.spec_kind() == CallKind::New,
            out.0.spec_stage() == Stage::Sending,
            match out.1 {
                Next::Send(
                    Message::Request {
                        request_id,
                        request: Request::FileChooserSaveFiles {
                            application,
                            title: sent_title,
                            options: sent_options,
                            ..
                        },
                    },
                ) => {
                    &&& request_id == old(ids).upcoming()
                    &&& application == (Application { app_id, window_identifier })
                    &&& sent_title@ == title@
                    &&& sent_options == options
                },
                _ => false,
            },
    {
        let (sender, receiver) = oneshot_channel();
        let request = Request::FileChooserSaveFiles {
            application: Application { app_id, window_identifier },
            title: String::from_str(title),
            options,
            sender,
        };
        let (call, next) = self.send_request(ids, token, request);
        (call, next, receiver)
    }
}

} // verus!
