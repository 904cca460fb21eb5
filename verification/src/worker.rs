use vstd::prelude::*;
use crate::envelope::{angle_addr, reply_to_field, Envelope, EnvelopeView};
use crate::queue::DispatchQueue;

verus! {

#[verifier::external_type_specification]
#[verifier::external_body]
pub struct ExMessage(lettre::Message);

/// Whether a string parses as one mailbox, as lettre's parser judges
/// it — a deterministic function of the characters. The mailbox
/// grammar is not restated here; `assemble_email` is the only source
/// of facts about this name.
pub uninterp spec fn mailbox_ok(s: Seq<char>) -> bool;

/// Relies on lettre's `Mailbox` parsing (`from_str`) and `Message`
/// builder: assembles a plain-text email from the given mailbox
/// strings, subject and body. With exactly one from, one reply-to and
/// one to mailbox set, a recipient present and no transfer encoding
/// forced, the builder's own checks cannot fail, so assembly succeeds
/// exactly when all three mailbox strings parse.
#[verifier::external_body]
fn assemble_email(
    from: &String,
    reply_to: &String,
    to: &String,
    subject: &String,
    body: String,
) -> (r: Option<lettre::Message>)
    ensures
        (r is Some) == (mailbox_ok(from@) && mailbox_ok(reply_to@) && mailbox_ok(to@)),
{
    let from_mb = from.parse::<lettre::message::Mailbox>().ok()?;
    let reply_mb = reply_to.parse::<lettre::message::Mailbox>().ok()?;
    let to_mb = to.parse::<lettre::message::Mailbox>().ok()?;
    lettre::Message::builder().from(from_mb).reply_to(reply_mb).to(to_mb).header(
        lettre::message::header::ContentType::TEXT_PLAIN,
    ).subject(subject.as_str()).body(body).ok()
}

/// Whether an envelope's three wire-format mailbox strings all parse,
/// that is, whether the delivery worker can assemble it for transport.
pub open spec fn envelope_assembles(e: EnvelopeView) -> bool {
    &&& mailbox_ok("<"@ + e.from + ">"@)
    &&& mailbox_ok(
        match e.reply_to_name {
            Some(n) => n + "<"@ + e.reply_to_email + ">"@,
            None => "<"@ + e.reply_to_email + ">"@,
        },
    )
    &&& mailbox_ok("<"@ + e.to + ">"@)
}

/// Transform one envelope into the wire format the mail relay expects:
/// bracketed from and to mailboxes, the reply-to mailbox with its
/// display name, a plain-text body. The mail message comes out exactly
/// when every mailbox string parses; otherwise the envelope is
/// dropped, never retried.
pub fn prepare_message(env: Envelope) -> (r: Option<lettre::Message>)
    ensures
        (r is Some) == envelope_assembles(env@),
{
    let from = angle_addr(&env.from);
    let reply_to = reply_to_field(&env.reply_to_name, &env.reply_to_email);
    let to = angle_addr(&env.to);
    assemble_email(&from, &reply_to, &to, &env.subject, env.body)
}

/// What the delivery worker does next: sleep on an empty queue, send
/// the assembled email, or drop an envelope whose addresses no longer
/// assemble (the sender already got its answer; delivery faults stay
/// invisible to it by design).
pub enum DeliveryAction {
    Idle,
    Send(lettre::Message),
    Discard,
}

/// One turn of the delivery worker: take the oldest pending envelope —
/// exactly one, FIFO — and transform it for transport. The queue loses
/// precisely its front element, so deliveries happen in admission
/// order, and the front envelope is sent exactly when it assembles.
pub fn worker_step(queue: &mut DispatchQueue) -> (r: DeliveryAction)
    ensures
        final(queue).cap() == old(queue).cap(),
        old(queue)@.len() == 0 ==> (r is Idle && final(queue)@ == old(queue)@),
        old(queue)@.len() > 0 ==> (!(r is Idle) && final(queue)@ == old(queue)@.drop_first()),
        old(queue)@.len() > 0 ==> ((r is Send) <==> envelope_assembles(old(queue)@[0])),
{
    match queue.dequeue() {
        None => DeliveryAction::Idle,
        Some(env) => match prepare_message(env) {
            Some(m) => DeliveryAction::Send(m),
            None => DeliveryAction::Discard,
        },
    }
}

} // verus!
