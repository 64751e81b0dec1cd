use std::cell::RefCell;
use std::rc::Rc;

use futures_util::future::join;
use tokio::sync::mpsc;
use tokio::sync::oneshot::Receiver;
use xdg_desktop_portal_phosh::dispatch::{Dispatched, Dispatcher, ResponderKind, Route};
use xdg_desktop_portal_phosh::handle_map::HandleToken;
use xdg_desktop_portal_phosh::message::{Message, RequestIds};
use xdg_desktop_portal_phosh::reply::{Delivery, Reply, ReplySlot};
use xdg_desktop_portal_phosh::request::{
    ChooserOptions, PortalError, Request, RequestKind, UserInformation, UserInformationOptions,
};
use xdg_desktop_portal_phosh::requester::{Call, CallKind, Event, Next, Requester, Stage};
use xdg_desktop_portal_phosh::requesters::{Account, AppChooser};
use xdg_desktop_portal_phosh::responder::Responder;

/// A responder that records what it is asked and answers when the test says.
struct Recorder {
    log: Rc<RefCell<Vec<String>>>,
    slot: RefCell<ReplySlot<UserInformation>>,
    updates: RefCell<ReplySlot<()>>,
}

impl Recorder {
    fn new(log: &Rc<RefCell<Vec<String>>>) -> Self {
        Recorder {
            log: log.clone(),
            slot: RefCell::new(ReplySlot::empty()),
            updates: RefCell::new(ReplySlot::empty()),
        }
    }

    fn resolve(&self, reply: Reply<UserInformation>) -> Delivery {
        self.slot.borrow_mut().resolve(reply)
    }
}

impl Responder for Recorder {
    fn respond(&self, request: Request) {
        self.log.borrow_mut().push(format!("respond {:?}", request.kind()));
        match request {
            Request::AccountGetUserInformation { sender, .. } => self.slot.borrow_mut().set(sender),
            Request::AppChooserUpdateChoices { sender, .. } => {
                self.updates.borrow_mut().set(sender);
                self.updates.borrow_mut().resolve(Ok(()));
            }
            _ => {}
        }
    }

    fn cancel(&self) {
        self.log.borrow_mut().push(String::from("cancel"));
    }
}

fn token(text: &str) -> HandleToken {
    HandleToken::new(String::from(text))
}

fn alice() -> UserInformation {
    UserInformation {
        id: String::from("alice"),
        name: String::from("Alice"),
        image: String::from("file:///home/alice/.face"),
    }
}

fn no_reason() -> UserInformationOptions {
    UserInformationOptions { reason: None }
}

fn account() -> (Account, mpsc::Receiver<Message>) {
    let (sender, receiver) = mpsc::channel(8);
    (Account::new(sender), receiver)
}

fn app_chooser() -> (AppChooser, mpsc::Receiver<Message>) {
    let (sender, receiver) = mpsc::channel(8);
    (AppChooser::new(sender), receiver)
}

/// Does what the call asks for until it waits for its reply or returns.
fn send_all<T, R: Requester>(requester: &mut R, call: &mut Call<T>, mut next: Next<T>) -> Next<T> {
    loop {
        match next {
            Next::Send(message) => {
                let sent = requester.sender().try_send(message).is_ok();
                next = call.advance(requester, Event::Sent(sent));
            }
            other => return other,
        }
    }
}

/// Drives a call to its end, taking the reply from the receiver as it is.
fn finish<T, R: Requester>(
    requester: &mut R,
    call: &mut Call<T>,
    next: Next<T>,
    receiver: &mut Receiver<Reply<T>>,
) -> Reply<T> {
    let mut next = send_all(requester, call, next);
    loop {
        match next {
            Next::Await => {
                let reply = receiver.try_recv().ok();
                let after = call.advance(requester, Event::Replied(reply));
                next = send_all(requester, call, after);
            }
            Next::Return(reply) => return reply,
            Next::Send(_) => unreachable!(),
        }
    }
}

/// Runs one turn of the dispatch loop, and says what was done.
fn turn(
    dispatcher: &mut Dispatcher<Recorder>,
    log: &Rc<RefCell<Vec<String>>>,
    message: Message,
) -> String {
    match dispatcher.dispatch(message) {
        Dispatched::Start { request_id, kind, request } => {
            let responder = Recorder::new(log);
            responder.respond(request);
            dispatcher.register(request_id, responder);
            format!("start {request_id} {kind:?}")
        }
        Dispatched::Update { request_id, request } => {
            dispatcher.get(request_id).unwrap().respond(request);
            format!("update {request_id}")
        }
        Dispatched::Cancel { request_id, responder } => {
            responder.cancel();
            format!("cancel {request_id}")
        }
        Dispatched::Close { request_id, responder } => {
            drop(responder);
            format!("close {request_id}")
        }
        Dispatched::Unknown { request_id } => format!("unknown {request_id}"),
    }
}

#[test]
fn reply_is_returned_and_done_closes_the_responder() {
    let log = Rc::new(RefCell::new(Vec::new()));
    let mut ids = RequestIds::new();
    let (mut adapter, mut inbox) = account();
    let mut dispatcher: Dispatcher<Recorder> = Dispatcher::new();

    let (mut call, next, mut receiver) =
        adapter.get_user_information(&mut ids, token("7"), None, None, no_reason());
    assert_eq!(call.request_id(), 1);
    assert_eq!(call.kind(), CallKind::New);
    assert_eq!(call.stage(), Stage::Sending);
    assert_eq!(adapter.map().peek(&token("7")), None);

    let next = send_all(&mut adapter, &mut call, next);
    assert!(matches!(next, Next::Await));
    assert_eq!(call.stage(), Stage::Waiting);
    assert_eq!(adapter.map().peek(&token("7")), Some(1));

    let message = inbox.try_recv().unwrap();
    assert!(matches!(message, Message::Request { request_id: 1, .. }));
    assert_eq!(dispatcher.route(&message), Route::Start(ResponderKind::Account));
    assert_eq!(turn(&mut dispatcher, &log, message), "start 1 Account");
    assert!(dispatcher.contains(1));
    assert_eq!(*log.borrow(), vec![String::from("respond AccountGetUserInformation")]);

    assert_eq!(dispatcher.get(1).unwrap().resolve(Ok(alice())), Delivery::Delivered);

    let reply = finish(&mut adapter, &mut call, next, &mut receiver);
    assert_eq!(reply, Ok(alice()));
    assert_eq!(call.stage(), Stage::Finished);
    assert_eq!(adapter.map().peek(&token("7")), None);

    let done = inbox.try_recv().unwrap();
    assert!(matches!(done, Message::Done { request_id: 1 }));
    assert!(inbox.try_recv().is_err());
    assert_eq!(turn(&mut dispatcher, &log, done), "close 1");
    assert!(!dispatcher.contains(1));
    assert_eq!(dispatcher.len(), 0);
    assert_eq!(log.borrow().len(), 1);
}

#[test]
fn cancel_discards_the_responder_and_stray_done_is_dropped() {
    let log = Rc::new(RefCell::new(Vec::new()));
    let mut ids = RequestIds::new();
    let (mut adapter, mut inbox) = account();
    let mut dispatcher: Dispatcher<Recorder> = Dispatcher::new();

    let (mut call, next, mut receiver) =
        adapter.get_user_information(&mut ids, token("9"), None, None, no_reason());
    let next = send_all(&mut adapter, &mut call, next);
    assert_eq!(turn(&mut dispatcher, &log, inbox.try_recv().unwrap()), "start 1 Account");
    assert!(dispatcher.contains(1));

    let cancel = adapter.close(&token("9")).unwrap();
    assert!(matches!(cancel, Message::Cancel { request_id: 1 }));
    assert_eq!(adapter.map().peek(&token("9")), None);
    assert!(adapter.close(&token("9")).is_none());

    assert_eq!(dispatcher.route(&cancel), Route::Cancel);
    assert_eq!(turn(&mut dispatcher, &log, cancel), "cancel 1");
    assert!(!dispatcher.contains(1));
    assert_eq!(log.borrow().last().unwrap(), "cancel");

    // The responder is gone and with it the reply channel: the call fails,
    // and still sends its one `Done`, which finds no responder.
    let reply = finish(&mut adapter, &mut call, next, &mut receiver);
    assert_eq!(reply, Err(PortalError::Failed(String::from("Unknown error"))));
    let done = inbox.try_recv().unwrap();
    assert!(matches!(done, Message::Done { request_id: 1 }));
    assert!(inbox.try_recv().is_err());
    assert_eq!(dispatcher.route(&done), Route::Unknown);
    assert_eq!(turn(&mut dispatcher, &log, done), "unknown 1");
    assert_eq!(dispatcher.len(), 0);
    assert_eq!(log.borrow().len(), 2);
}

#[test]
fn update_for_unknown_token_fails_without_a_message() {
    let (mut adapter, mut inbox) = app_chooser();
    let (mut call, next, mut receiver) =
        adapter.update_choices(token("9"), vec![String::from("org.gnome.Maps")]);
    assert_eq!(call.kind(), CallKind::Update);
    assert_eq!(call.stage(), Stage::Finished);
    assert!(matches!(next, Next::Return(_)));
    let reply = finish(&mut adapter, &mut call, next, &mut receiver);
    assert_eq!(reply, Err(PortalError::Failed(String::from("Unknown error"))));
    assert!(inbox.try_recv().is_err());
    assert_eq!(adapter.map().len(), 0);
}

#[test]
fn full_channel_suspends_the_sender() {
    let order = Rc::new(RefCell::new(Vec::new()));
    let runtime = tokio::runtime::Builder::new_current_thread().build().unwrap();
    runtime.block_on(async {
        let (sender, mut inbox) = mpsc::channel(1);
        let mut adapter = Account::new(sender.clone());
        let mut ids = RequestIds::new();
        sender.send(Message::done(40)).await.unwrap();
        assert!(sender.try_send(Message::done(41)).is_err());

        let (mut call, next, _receiver) =
            adapter.get_user_information(&mut ids, token("d"), None, None, no_reason());
        let requesting = async {
            let Next::Send(message) = next else { unreachable!() };
            let sent = sender.send(message).await.is_ok();
            order.borrow_mut().push("sent");
            call.advance(&mut adapter, Event::Sent(sent))
        };
        let draining = async {
            let first = inbox.recv().await.unwrap();
            order.borrow_mut().push("drained");
            let second = inbox.recv().await.unwrap();
            (first, second)
        };
        let (next, (first, second)) = join(requesting, draining).await;
        assert!(matches!(next, Next::Await));
        assert!(matches!(first, Message::Done { request_id: 40 }));
        assert!(matches!(second, Message::Request { request_id: 1, .. }));
    });
    assert_eq!(*order.borrow(), vec!["drained", "sent"]);
}

#[test]
fn update_reaches_the_responder_at_work() {
    let log = Rc::new(RefCell::new(Vec::new()));
    let mut ids = RequestIds::new();
    let (mut adapter, mut inbox) = app_chooser();
    let mut dispatcher: Dispatcher<Recorder> = Dispatcher::new();
    let options = ChooserOptions {
        last_choice: None,
        modal: None,
        content_type: None,
        uri: Some(String::from("https://example.org")),
        filename: None,
    };
    let (mut call, next, _receiver) =
        adapter.choose_application(&mut ids, token("t"), None, None, Vec::new(), options);
    let _ = send_all(&mut adapter, &mut call, next);
    let message = inbox.try_recv().unwrap();
    assert_eq!(dispatcher.route(&message), Route::Start(ResponderKind::AppChooser));
    assert_eq!(turn(&mut dispatcher, &log, message), "start 1 AppChooser");

    let (mut update, next, mut receiver) =
        adapter.update_choices(token("t"), vec![String::from("org.gnome.Maps")]);
    assert_eq!(update.request_id(), 1);
    assert_eq!(update.stage(), Stage::Sending);
    let next = send_all(&mut adapter, &mut update, next);
    assert!(matches!(next, Next::Await));
    let message = inbox.try_recv().unwrap();
    assert!(matches!(
        &message,
        Message::Request { request_id: 1, request } if request.kind() == RequestKind::AppChooserUpdateChoices
    ));
    assert_eq!(dispatcher.route(&message), Route::Update);
    assert_eq!(turn(&mut dispatcher, &log, message), "update 1");
    assert_eq!(dispatcher.len(), 1);
    assert_eq!(
        *log.borrow(),
        vec![
            String::from("respond AppChooserChooseApplication"),
            String::from("respond AppChooserUpdateChoices"),
        ]
    );

    let reply = finish(&mut adapter, &mut update, next, &mut receiver);
    assert_eq!(reply, Ok(()));
    // An update sends no `Done` and leaves the request open.
    assert!(inbox.try_recv().is_err());
    assert_eq!(adapter.map().peek(&token("t")), Some(1));
    assert!(dispatcher.contains(1));
}

#[test]
fn update_without_a_responder_is_dropped() {
    let mut dispatcher: Dispatcher<Recorder> = Dispatcher::new();
    let (sender, _receiver) = tokio::sync::oneshot::channel();
    let message = Message::request_with_id(
        5,
        Request::AppChooserUpdateChoices { choices: Vec::new(), sender },
    );
    assert_eq!(dispatcher.route(&message), Route::Unknown);
    assert!(matches!(dispatcher.dispatch(message), Dispatched::Unknown { request_id: 5 }));
    assert!(matches!(dispatcher.dispatch(Message::cancel(5)), Dispatched::Unknown { request_id: 5 }));
    assert!(matches!(dispatcher.dispatch(Message::done(5)), Dispatched::Unknown { request_id: 5 }));
    assert_eq!(dispatcher.len(), 0);
}

#[test]
fn failed_send_still_ends_with_one_done() {
    let (sender, inbox) = mpsc::channel(8);
    drop(inbox);
    let mut adapter = Account::new(sender);
    let mut ids = RequestIds::new();
    let (mut call, next, _receiver) =
        adapter.get_user_information(&mut ids, token("x"), None, None, no_reason());
    let Next::Send(message) = next else { unreachable!() };
    assert!(adapter.sender().try_send(message).is_err());
    let next = call.advance(&mut adapter, Event::Sent(false));
    assert!(matches!(next, Next::Send(Message::Done { request_id: 1 })));
    assert_eq!(call.stage(), Stage::Closing);
    assert_eq!(adapter.map().len(), 0);
    let next = call.advance(&mut adapter, Event::Sent(false));
    match next {
        Next::Return(reply) => {
            assert_eq!(reply, Err(PortalError::Failed(String::from("Unknown error"))))
        }
        _ => panic!("the call did not return"),
    }
    assert_eq!(call.stage(), Stage::Finished);
}

#[test]
fn every_new_request_sends_done_exactly_once() {
    // Every way through a call: sent or not, answered, refused or broken.
    for sent in [true, false] {
        for answer in 0..3 {
            let (mut adapter, mut inbox) = account();
            let mut ids = RequestIds::new();
            let (mut call, next, _receiver) =
                adapter.get_user_information(&mut ids, token("p"), None, None, no_reason());
            let mut dones = 0;
            let mut next = next;
            let mut steps = 0;
            let reply = loop {
                steps += 1;
                assert!(steps <= 4);
                let event = match next {
                    Next::Send(message) => {
                        if matches!(message, Message::Done { request_id: 1 }) {
                            dones += 1;
                        }
                        let _ = adapter.sender().try_send(message);
                        Event::Sent(sent)
                    }
                    Next::Await => Event::Replied(match answer {
                        0 => Some(Ok(alice())),
                        1 => Some(Err(PortalError::Cancelled(String::from("Cancelled by user")))),
                        _ => None,
                    }),
                    Next::Return(reply) => break reply,
                };
                assert!(call.expects(&event));
                next = call.advance(&mut adapter, event);
            };
            assert_eq!(dones, 1);
            assert_eq!(adapter.map().len(), 0);
            let expected = match (sent, answer) {
                (true, 0) => Ok(alice()),
                (true, 1) => Err(PortalError::Cancelled(String::from("Cancelled by user"))),
                _ => Err(PortalError::Failed(String::from("Unknown error"))),
            };
            assert_eq!(reply, expected);
            while inbox.try_recv().is_ok() {}
        }
    }
}

#[test]
fn event_out_of_turn_breaks_the_call_off() {
    let (mut adapter, _inbox) = account();
    let mut ids = RequestIds::new();
    let (mut call, _next, _receiver) =
        adapter.get_user_information(&mut ids, token("o"), None, None, no_reason());
    let event = Event::Replied(Some(Ok(alice())));
    assert!(!call.expects(&event));
    let next = call.advance(&mut adapter, event);
    assert!(matches!(next, Next::Send(Message::Done { request_id: 1 })));
    match call.advance(&mut adapter, Event::Sent(true)) {
        Next::Return(reply) => {
            assert_eq!(reply, Err(PortalError::Failed(String::from("Unknown error"))))
        }
        _ => panic!("the call did not return"),
    }
    match call.advance(&mut adapter, Event::Sent(true)) {
        Next::Return(reply) => {
            assert_eq!(reply, Err(PortalError::Failed(String::from("Unknown error"))))
        }
        _ => panic!("a finished call did not return"),
    }
}

#[test]
fn requesters_share_identities_but_not_tokens() {
    let mut ids = RequestIds::new();
    let (mut first, _inbox_a) = account();
    let (mut second, _inbox_b) = app_chooser();
    let (mut a, next_a, _ra) =
        first.get_user_information(&mut ids, token("same"), None, None, no_reason());
    let options = ChooserOptions {
        last_choice: None,
        modal: None,
        content_type: None,
        uri: None,
        filename: Some(String::from("a.txt")),
    };
    let (mut b, next_b, _rb) =
        second.choose_application(&mut ids, token("same"), None, None, Vec::new(), options);
    let _ = send_all(&mut first, &mut a, next_a);
    let _ = send_all(&mut second, &mut b, next_b);
    assert_eq!(first.map().peek(&token("same")), Some(1));
    assert_eq!(second.map().peek(&token("same")), Some(2));
    assert!(matches!(second.close(&token("same")), Some(Message::Cancel { request_id: 2 })));
    assert_eq!(first.map().peek(&token("same")), Some(1));
}

#[test]
fn send_done_names_the_request_even_without_a_mapping() {
    let (mut adapter, _inbox) = account();
    assert!(matches!(adapter.send_done(&token("gone"), 12), Message::Done { request_id: 12 }));
    adapter.map_mut().insert(token("here"), 3);
    assert!(matches!(adapter.send_done(&token("here"), 3), Message::Done { request_id: 3 }));
    assert_eq!(adapter.map().len(), 0);
}

#[test]
fn send_cancel_for_unknown_token_sends_nothing() {
    let (mut adapter, _inbox) = account();
    adapter.map_mut().insert(token("a"), 3);
    assert!(adapter.send_cancel(&token("b")).is_none());
    assert_eq!(adapter.map().len(), 1);
    assert!(matches!(adapter.send_cancel(&token("a")), Some(Message::Cancel { request_id: 3 })));
    assert_eq!(adapter.map().len(), 0);
}

#[test]
fn responder_stays_until_its_request_ends() {
    let log = Rc::new(RefCell::new(Vec::new()));
    let mut dispatcher: Dispatcher<Recorder> = Dispatcher::new();
    let mut ids = RequestIds::new();
    let (adapter, _inbox) = account();
    let mut messages = Vec::new();
    for name in ["a", "b", "c"] {
        let (_call, next, _receiver) =
            adapter.get_user_information(&mut ids, token(name), None, None, no_reason());
        let Next::Send(message) = next else { unreachable!() };
        messages.push(message);
    }
    let mut done = Vec::new();
    for message in messages {
        done.push(turn(&mut dispatcher, &log, message));
    }
    assert_eq!(done, vec!["start 1 Account", "start 2 Account", "start 3 Account"]);
    assert_eq!(dispatcher.len(), 3);

    // A second request under a live identity starts nothing.
    let (sender, _receiver) = tokio::sync::oneshot::channel();
    let again = Message::request_with_id(
        2,
        Request::AccountGetUserInformation {
            application: xdg_desktop_portal_phosh::Application {
                app_id: None,
                window_identifier: None,
            },
            options: no_reason(),
            sender,
        },
    );
    assert_eq!(dispatcher.route(&again), Route::Update);
    assert_eq!(turn(&mut dispatcher, &log, again), "update 2");
    assert_eq!(dispatcher.len(), 3);

    assert_eq!(turn(&mut dispatcher, &log, Message::done(1)), "close 1");
    assert!(dispatcher.contains(2));
    assert!(dispatcher.contains(3));
    assert_eq!(turn(&mut dispatcher, &log, Message::cancel(3)), "cancel 3");
    assert!(dispatcher.contains(2));
    assert_eq!(turn(&mut dispatcher, &log, Message::cancel(3)), "unknown 3");
    assert_eq!(turn(&mut dispatcher, &log, Message::done(2)), "close 2");
    assert_eq!(dispatcher.len(), 0);
    assert!(dispatcher.remove(2).is_none());
}

#[test]
fn every_kind_of_request_finds_its_responder() {
    use_table(RequestKind::AccountGetUserInformation, Some(ResponderKind::Account));
    use_table(RequestKind::AppChooserChooseApplication, Some(ResponderKind::AppChooser));
    use_table(RequestKind::AppChooserUpdateChoices, None);
    use_table(RequestKind::FileChooserOpenFile, Some(ResponderKind::FileChooser));
    use_table(RequestKind::FileChooserSaveFile, Some(ResponderKind::FileChooser));
    use_table(RequestKind::FileChooserSaveFiles, Some(ResponderKind::FileChooser));
}

fn use_table(kind: RequestKind, expected: Option<ResponderKind>) {
    assert_eq!(xdg_desktop_portal_phosh::dispatch::responder_for(kind), expected);
}
