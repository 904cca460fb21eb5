use vstd::prelude::*;
use vstd::string::StrSliceExecFns;
use crate::errors::{FieldError, RelayError};

verus! {

/// Whether a string is a syntactically valid email address, as the
/// external validation library judges it. The full grammar is not
/// restated here; `email_valid` is the only source of facts about it.
pub uninterp spec fn email_ok(s: Seq<char>) -> bool;

/// Relies on validator's `ValidateEmail` impl for `String`: syntactic
/// email validation, a deterministic function of the characters alone.
/// Its source rejects an empty string outright.
#[verifier::external_body]
pub(crate) fn email_valid(s: &String) -> (r: bool)
    ensures
        r == email_ok(s@),
        s@.len() == 0 ==> !r,
{
    validator::ValidateEmail::validate_email(s)
}

/// Longest accepted token, in characters.
pub const TOKEN_MAX: usize = 21;

/// Longest accepted first or last name, in characters.
pub const NAME_MAX: usize = 64;

/// Longest accepted subject, in characters.
pub const SUBJECT_MAX: usize = 128;

/// Shortest accepted message body, in characters.
pub const BODY_MIN: usize = 10;

/// Longest accepted message body, in characters.
pub const BODY_MAX: usize = 2048;

/// A message submission as the caller hands it in: the capability token,
/// the sender's optional display names, an optional subject, the sender's
/// own email address, and the body to relay.
pub struct MessageForm {
    pub token: String,
    pub first_name: Option<String>,
    pub last_name: Option<String>,
    pub subject: Option<String>,
    pub email: String,
    pub body: String,
}

pub ghost struct MessageFormView {
    pub token: Seq<char>,
    pub first_name: Option<Seq<char>>,
    pub last_name: Option<Seq<char>>,
    pub subject: Option<Seq<char>>,
    pub email: Seq<char>,
    pub body: Seq<char>,
}

pub open spec fn opt_view(o: Option<String>) -> Option<Seq<char>> {
    match o {
        Some(s) => Some(s@),
        None => None,
    }
}

impl View for MessageForm {
    type V = MessageFormView;

    open spec fn view(&self) -> MessageFormView {
        MessageFormView {
            token: self.token@,
            first_name: opt_view(self.first_name),
            last_name: opt_view(self.last_name),
            subject: opt_view(self.subject),
            email: self.email@,
            body: self.body@,
        }
    }
}

pub open spec fn token_ok(s: Seq<char>) -> bool {
    s.len() <= TOKEN_MAX
}

pub open spec fn name_ok(o: Option<Seq<char>>) -> bool {
    match o {
        Some(s) => s.len() <= NAME_MAX,
        None => true,
    }
}

pub open spec fn subject_ok(o: Option<Seq<char>>) -> bool {
    match o {
        Some(s) => s.len() <= SUBJECT_MAX,
        None => true,
    }
}

pub open spec fn body_ok(s: Seq<char>) -> bool {
    BODY_MIN <= s.len() && s.len() <= BODY_MAX
}

/// A submission is admissible only when every field passes its bound
/// and the sender email is syntactically valid.
pub open spec fn form_ok(f: MessageFormView) -> bool {
    &&& token_ok(f.token)
    &&& name_ok(f.first_name)
    &&& name_ok(f.last_name)
    &&& subject_ok(f.subject)
    &&& email_ok(f.email)
    &&& body_ok(f.body)
}

/// The offending fields of a submission, in the fixed order they are
/// reported: token, first name, last name, subject, email, body.
pub open spec fn message_violations(f: MessageFormView) -> Seq<FieldError> {
    (if !token_ok(f.token) {
        seq![FieldError::Token]
    } else {
        Seq::<FieldError>::empty()
    }) + (if !name_ok(f.first_name) {
        seq![FieldError::FirstName]
    } else {
        Seq::<FieldError>::empty()
    }) + (if !name_ok(f.last_name) {
        seq![FieldError::LastName]
    } else {
        Seq::<FieldError>::empty()
    }) + (if !subject_ok(f.subject) {
        seq![FieldError::Subject]
    } else {
        Seq::<FieldError>::empty()
    }) + (if !email_ok(f.email) {
        seq![FieldError::Email]
    } else {
        Seq::<FieldError>::empty()
    }) + (if !body_ok(f.body) {
        seq![FieldError::Body]
    } else {
        Seq::<FieldError>::empty()
    })
}

/// Check a submission against every field bound. On failure the exact
/// list of offending fields is reported and nothing else happens.
pub fn validate_message(f: &MessageForm) -> (r: Result<(), RelayError>)
    ensures
        r is Ok <==> form_ok(f@),
        !form_ok(f@) ==> (r matches Err(RelayError::Validation(v)) && v@
            == message_violations(f@)),
{
    let mut v: Vec<FieldError> = Vec::new();
    if f.token.as_str().unicode_len() > TOKEN_MAX {
        v.push(FieldError::Token);
    }
    match &f.first_name {
        Some(s) => {
            if s.as_str().unicode_len() > NAME_MAX {
                v.push(FieldError::FirstName);
            }
        },
        None => {},
    }
    match &f.last_name {
        Some(s) => {
            if s.as_str().unicode_len() > NAME_MAX {
                v.push(FieldError::LastName);
            }
        },
        None => {},
    }
    match &f.subject {
        Some(s) => {
            if s.as_str().unicode_len() > SUBJECT_MAX {
                v.push(FieldError::Subject);
            }
        },
        None => {},
    }
    if !email_valid(&f.email) {
        v.push(FieldError::Email);
    }
    let body_len = f.body.as_str().unicode_len();
    if body_len < BODY_MIN || body_len > BODY_MAX {
        v.push(FieldError::Body);
    }
    proof {
        assert(v@ =~= message_violations(f@));
    }
    if v.len() == 0 {
        proof {
            assert(form_ok(f@));
        }
        Ok(())
    } else {
        Err(RelayError::Validation(v))
    }
}

} // verus!
