use contact_relay::admission::{submit_message_at, Submitted};
use contact_relay::envelope::{
    angle_addr, build_envelope, concat_name, reply_to_field, subject_or_default, Envelope,
};
use contact_relay::issuer::create_account_at;
use contact_relay::queue::{DispatchQueue, Enqueued, DISPATCH_CAPACITY};
use contact_relay::store::AccountStore;
use contact_relay::validate::MessageForm;
use contact_relay::worker::{prepare_message, worker_step, DeliveryAction};

fn envelope(body: &str) -> Envelope {
    Envelope {
        from: String::from("relay@example.com"),
        reply_to_name: None,
        reply_to_email: String::from("sender@example.com"),
        to: String::from("owner@example.com"),
        subject: String::from("Hi"),
        body: String::from(body),
    }
}

#[test]
fn default_capacity_matches_the_reference() {
    assert_eq!(DISPATCH_CAPACITY, 1024);
    let q = DispatchQueue::new(DISPATCH_CAPACITY);
    assert_eq!(q.capacity(), 1024);
    assert_eq!(q.len(), 0);
}

#[test]
fn delivery_order_is_admission_order() {
    let mut store = AccountStore::new();
    let mut queue = DispatchQueue::new(8);
    let from = String::from("relay@example.com");
    let token = create_account_at(&mut store, &String::from("owner@example.com"), 1)
        .unwrap()
        .token;

    for body in ["first message body!", "second message body!", "third message body!"] {
        let form = MessageForm {
            token: token.clone(),
            first_name: None,
            last_name: None,
            subject: None,
            email: String::from("sender@example.com"),
            body: String::from(body),
        };
        let r = submit_message_at(&mut store, &mut queue, &form, &from, 2).unwrap();
        assert!(matches!(r, Submitted::Enqueued));
    }

    let first = queue.dequeue().unwrap();
    assert_eq!(first.body, "first message body!");
    assert_eq!(first.to, "owner@example.com");
    assert_eq!(first.reply_to_email, "sender@example.com");
    assert_eq!(first.subject, "No subject");
    assert_eq!(queue.dequeue().unwrap().body, "second message body!");
    assert_eq!(queue.dequeue().unwrap().body, "third message body!");
    assert!(queue.dequeue().is_none());
}

#[test]
fn full_queue_hands_the_envelope_back_until_a_slot_frees() {
    let mut queue = DispatchQueue::new(2);
    assert!(matches!(queue.enqueue(envelope("kept message one")), Enqueued::Accepted));
    assert!(matches!(queue.enqueue(envelope("kept message two")), Enqueued::Accepted));

    let refused = match queue.enqueue(envelope("waiting message")) {
        Enqueued::Full(e) => e,
        Enqueued::Accepted => panic!("a full queue accepted a third envelope"),
    };
    assert_eq!(refused.body, "waiting message");
    assert_eq!(queue.len(), 2);

    assert_eq!(queue.dequeue().unwrap().body, "kept message one");
    assert!(matches!(queue.enqueue(refused), Enqueued::Accepted));
    assert_eq!(queue.dequeue().unwrap().body, "kept message two");
    assert_eq!(queue.dequeue().unwrap().body, "waiting message");
}

#[test]
fn backpressured_admission_still_accounts_usage() {
    let mut store = AccountStore::new();
    let mut queue = DispatchQueue::new(1);
    let from = String::from("relay@example.com");
    let owner = String::from("owner@example.com");
    let token = create_account_at(&mut store, &owner, 1).unwrap().token;

    let form = MessageForm {
        token: token.clone(),
        first_name: None,
        last_name: None,
        subject: None,
        email: String::from("sender@example.com"),
        body: String::from("first message body!"),
    };
    assert!(matches!(
        submit_message_at(&mut store, &mut queue, &form, &from, 2).unwrap(),
        Submitted::Enqueued
    ));
    let deferred = match submit_message_at(&mut store, &mut queue, &form, &from, 3).unwrap() {
        Submitted::Deferred(e) => e,
        Submitted::Enqueued => panic!("a full queue accepted a second envelope"),
    };
    assert_eq!(deferred.to, "owner@example.com");
    assert_eq!(store.find_by_email(&owner).unwrap().counter, 2);
    assert_eq!(queue.len(), 1);
}

#[test]
fn concat_name_joins_whatever_is_present() {
    let jo = Some(String::from("Jo"));
    let do_ = Some(String::from("Do"));
    assert_eq!(concat_name(&jo, &do_), Some(String::from("Jo Do")));
    assert_eq!(concat_name(&jo, &None), Some(String::from("Jo")));
    assert_eq!(concat_name(&None, &do_), Some(String::from("Do")));
    assert_eq!(concat_name(&None, &None), None);
}

#[test]
fn wire_formats_are_exact() {
    assert_eq!(angle_addr(&String::from("a@b.example")), "<a@b.example>");
    assert_eq!(
        reply_to_field(&Some(String::from("Jo Do")), &String::from("x@y.example")),
        "Jo Do<x@y.example>"
    );
    assert_eq!(
        reply_to_field(&None, &String::from("x@y.example")),
        "<x@y.example>"
    );
    assert_eq!(subject_or_default(&Some(String::from("Hi"))), "Hi");
    assert_eq!(subject_or_default(&None), "No subject");
}

#[test]
fn built_envelope_carries_the_admitted_values() {
    let form = MessageForm {
        token: String::from("whatever-token"),
        first_name: Some(String::from("Jo")),
        last_name: Some(String::from("Do")),
        subject: None,
        email: String::from("sender@example.com"),
        body: String::from("0123456789"),
    };
    let env = build_envelope(
        &form,
        &String::from("relay@example.com"),
        &String::from("owner@example.com"),
    );
    assert_eq!(env.from, "relay@example.com");
    assert_eq!(env.reply_to_name, Some(String::from("Jo Do")));
    assert_eq!(env.reply_to_email, "sender@example.com");
    assert_eq!(env.to, "owner@example.com");
    assert_eq!(env.subject, "No subject");
    assert_eq!(env.body, "0123456789");
}

#[test]
fn worker_assembles_a_real_mail_message() {
    assert!(prepare_message(envelope("a body to send")).is_some());
}

#[test]
fn worker_discards_what_no_longer_parses() {
    let mut bad = envelope("a body to send");
    bad.from = String::from("not an address");
    assert!(prepare_message(bad).is_none());
}

#[test]
fn worker_drains_in_order_and_then_idles() {
    let mut queue = DispatchQueue::new(4);
    assert!(matches!(worker_step(&mut queue), DeliveryAction::Idle));

    assert!(matches!(queue.enqueue(envelope("one good message")), Enqueued::Accepted));
    let mut bad = envelope("one bad message");
    bad.to = String::from("not an address");
    assert!(matches!(queue.enqueue(bad), Enqueued::Accepted));

    assert!(matches!(worker_step(&mut queue), DeliveryAction::Send(_)));
    assert!(matches!(worker_step(&mut queue), DeliveryAction::Discard));
    assert!(matches!(worker_step(&mut queue), DeliveryAction::Idle));
    assert_eq!(queue.len(), 0);
}
