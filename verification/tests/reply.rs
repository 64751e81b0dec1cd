use tokio::sync::oneshot;
use xdg_desktop_portal_phosh::reply::{Delivery, Reply, ReplySlot};
use xdg_desktop_portal_phosh::request::{Choice, PortalError};

fn maps() -> Choice {
    Choice { app_id: String::from("org.gnome.Maps") }
}

#[test]
fn first_answer_is_delivered() {
    let (sender, mut receiver) = oneshot::channel::<Reply<Choice>>();
    let mut slot = ReplySlot::new(sender);
    assert!(slot.has_sender());
    assert_eq!(slot.resolve(Ok(maps())), Delivery::Delivered);
    assert!(!slot.has_sender());
    assert_eq!(receiver.try_recv().unwrap(), Ok(maps()));
}

#[test]
fn second_answer_is_told_apart() {
    let (sender, mut receiver) = oneshot::channel::<Reply<Choice>>();
    let mut slot = ReplySlot::new(sender);
    let cancelled = PortalError::Cancelled(String::from("Cancelled by user"));
    assert_eq!(slot.resolve(Err(cancelled.clone())), Delivery::Delivered);
    assert_eq!(slot.resolve(Ok(maps())), Delivery::AlreadyResolved);
    assert_eq!(receiver.try_recv().unwrap(), Err(cancelled));
    assert!(receiver.try_recv().is_err());
}

#[test]
fn empty_slot_resolves_nothing() {
    let mut slot: ReplySlot<Choice> = ReplySlot::empty();
    assert!(!slot.has_sender());
    assert_eq!(slot.resolve(Ok(maps())), Delivery::AlreadyResolved);
}

#[test]
fn receiver_gone_is_reported() {
    let (sender, receiver) = oneshot::channel::<Reply<Choice>>();
    drop(receiver);
    let mut slot = ReplySlot::empty();
    slot.set(sender);
    assert!(slot.has_sender());
    assert_eq!(slot.resolve(Ok(maps())), Delivery::ReceiverGone);
    assert_eq!(slot.resolve(Ok(maps())), Delivery::AlreadyResolved);
}

#[test]
fn dropped_slot_breaks_the_channel() {
    let (sender, mut receiver) = oneshot::channel::<Reply<Choice>>();
    let slot = ReplySlot::new(sender);
    drop(slot);
    assert!(matches!(receiver.try_recv(), Err(oneshot::error::TryRecvError::Closed)));
}
