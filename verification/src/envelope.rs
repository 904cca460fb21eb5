use vstd::prelude::*;
use vstd::string::StringExecFns;
use crate::validate::{opt_view, MessageForm, MessageFormView};

verus! {

/// Mathematical model of an outbound envelope.
pub ghost struct EnvelopeView {
    pub from: Seq<char>,
    pub reply_to_name: Option<Seq<char>>,
    pub reply_to_email: Seq<char>,
    pub to: Seq<char>,
    pub subject: Seq<char>,
    pub body: Seq<char>,
}

/// A fully constructed outbound email, held in memory only while it
/// waits in the dispatch queue: the system's fixed sending identity,
/// the sender's reply-to mailbox (address plus optional display name),
/// the account's protected address, a subject (defaulted when the
/// sender gave none) and a plain-text body.
pub struct Envelope {
    pub from: String,
    pub reply_to_name: Option<String>,
    pub reply_to_email: String,
    pub to: String,
    pub subject: String,
    pub body: String,
}

impl View for Envelope {
    type V = EnvelopeView;

    open spec fn view(&self) -> EnvelopeView {
        EnvelopeView {
            from: self.from@,
            reply_to_name: opt_view(self.reply_to_name),
            reply_to_email: self.reply_to_email@,
            to: self.to@,
            subject: self.subject@,
            body: self.body@,
        }
    }
}

/// The reply-to display name: both names joined by one space when both
/// are present, either alone when only one is, nothing when neither is.
pub open spec fn spec_concat_name(
    first: Option<Seq<char>>,
    last: Option<Seq<char>>,
) -> Option<Seq<char>> {
    match (first, last) {
        (Some(f), Some(l)) => Some(f + " "@ + l),
        (Some(f), None) => Some(f),
        (None, Some(l)) => Some(l),
        (None, None) => None,
    }
}

/// Join the optional first and last names into a display name.
pub fn concat_name(first_name: &Option<String>, last_name: &Option<String>) -> (r: Option<String>)
    ensures
        opt_view(r) == spec_concat_name(opt_view(*first_name), opt_view(*last_name)),
{
    match (first_name, last_name) {
        (Some(f), Some(l)) => Some(String::from_str(f.as_str()).concat(" ").concat(l.as_str())),
        (Some(f), None) => Some(f.clone()),
        (None, Some(l)) => Some(l.clone()),
        (None, None) => None,
    }
}

/// The subject to send: the sender's subject, or the fixed placeholder.
pub fn subject_or_default(subject: &Option<String>) -> (r: String)
    ensures
        (*subject) matches Some(s) ==> r@ == s@,
        (*subject) is None ==> r@ == "No subject"@,
{
    match subject {
        Some(s) => s.clone(),
        None => String::from_str("No subject"),
    }
}

/// The wire form of a bare address: the address between angle brackets.
pub fn angle_addr(addr: &String) -> (r: String)
    ensures
        r@ == "<"@ + addr@ + ">"@,
{
    String::from_str("<").concat(addr.as_str()).concat(">")
}

/// The wire form of the reply-to mailbox: the display name (empty when
/// absent) followed by the bracketed address.
pub fn reply_to_field(name: &Option<String>, addr: &String) -> (r: String)
    ensures
        (*name) matches Some(n) ==> r@ == n@ + "<"@ + addr@ + ">"@,
        (*name) is None ==> r@ == "<"@ + addr@ + ">"@,
{
    match name {
        Some(n) => String::from_str(n.as_str()).concat("<").concat(addr.as_str()).concat(">"),
        None => String::from_str("<").concat(addr.as_str()).concat(">"),
    }
}

/// What the envelope of an admitted submission must hold: the system's
/// sending identity, the sender's mailbox as reply-to, the account's
/// protected address as destination — never the sender's — the subject
/// (defaulted when absent) and the body, unchanged.
pub open spec fn envelope_for(f: MessageFormView, from: Seq<char>, to: Seq<char>) -> EnvelopeView {
    EnvelopeView {
        from: from,
        reply_to_name: spec_concat_name(f.first_name, f.last_name),
        reply_to_email: f.email,
        to: to,
        subject: match f.subject {
            Some(s) => s,
            None => "No subject"@,
        },
        body: f.body,
    }
}

/// Build the outbound envelope for an admitted submission.
pub fn build_envelope(f: &MessageForm, from: &String, to: &String) -> (r: Envelope)
    ensures
        r@ == envelope_for(f@, from@, to@),
{
    Envelope {
        from: from.clone(),
        reply_to_name: concat_name(&f.first_name, &f.last_name),
        reply_to_email: f.email.clone(),
        to: to.clone(),
        subject: subject_or_default(&f.subject),
        body: f.body.clone(),
    }
}

} // verus!
