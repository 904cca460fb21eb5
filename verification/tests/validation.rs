use contact_relay::errors::{FieldError, RelayError};
use contact_relay::validate::{validate_message, MessageForm};

fn form() -> MessageForm {
    MessageForm {
        token: String::from("abcdefghijklmnopqrstu"),
        first_name: Some(String::from("Jo")),
        last_name: Some(String::from("Do")),
        subject: Some(String::from("Hi")),
        email: String::from("sender@example.com"),
        body: String::from("0123456789"),
    }
}

fn violations(f: &MessageForm) -> Vec<FieldError> {
    match validate_message(f) {
        Err(RelayError::Validation(v)) => v,
        other => panic!("expected a validation error, got {:?}", other),
    }
}

#[test]
fn accepts_a_fully_bounded_form() {
    assert!(validate_message(&form()).is_ok());
}

#[test]
fn accepts_absent_optional_fields() {
    let mut f = form();
    f.first_name = None;
    f.last_name = None;
    f.subject = None;
    assert!(validate_message(&f).is_ok());
}

#[test]
fn accepts_the_exact_boundaries() {
    let mut f = form();
    f.token = "t".repeat(21);
    f.first_name = Some("f".repeat(64));
    f.last_name = Some("l".repeat(64));
    f.subject = Some("s".repeat(128));
    f.body = "b".repeat(10);
    assert!(validate_message(&f).is_ok());
    f.body = "b".repeat(2048);
    assert!(validate_message(&f).is_ok());
}

#[test]
fn rejects_an_overlong_token() {
    let mut f = form();
    f.token = "t".repeat(22);
    assert_eq!(violations(&f), vec![FieldError::Token]);
}

#[test]
fn rejects_an_overlong_first_name() {
    let mut f = form();
    f.first_name = Some("f".repeat(65));
    assert_eq!(violations(&f), vec![FieldError::FirstName]);
}

#[test]
fn rejects_an_overlong_last_name() {
    let mut f = form();
    f.last_name = Some("l".repeat(65));
    assert_eq!(violations(&f), vec![FieldError::LastName]);
}

#[test]
fn rejects_an_overlong_subject() {
    let mut f = form();
    f.subject = Some("s".repeat(129));
    assert_eq!(violations(&f), vec![FieldError::Subject]);
}

#[test]
fn rejects_an_invalid_sender_email() {
    let mut f = form();
    f.email = String::from("not-an-email");
    assert_eq!(violations(&f), vec![FieldError::Email]);
    f.email = String::from("");
    assert_eq!(violations(&f), vec![FieldError::Email]);
}

#[test]
fn rejects_a_body_out_of_bounds() {
    let mut f = form();
    f.body = String::from("too short");
    assert_eq!(violations(&f), vec![FieldError::Body]);
    f.body = "b".repeat(2049);
    assert_eq!(violations(&f), vec![FieldError::Body]);
}

#[test]
fn reports_every_offending_field_in_order() {
    let f = MessageForm {
        token: "t".repeat(22),
        first_name: Some("f".repeat(65)),
        last_name: Some("l".repeat(65)),
        subject: Some("s".repeat(129)),
        email: String::from("not-an-email"),
        body: String::from("short"),
    };
    assert_eq!(
        violations(&f),
        vec![
            FieldError::Token,
            FieldError::FirstName,
            FieldError::LastName,
            FieldError::Subject,
            FieldError::Email,
            FieldError::Body,
        ]
    );
}

#[test]
fn length_bounds_count_characters_not_bytes() {
    let mut f = form();
    // 64 two-byte characters: within the bound when counted as characters.
    f.first_name = Some("é".repeat(64));
    assert!(validate_message(&f).is_ok());
    f.first_name = Some("é".repeat(65));
    assert_eq!(violations(&f), vec![FieldError::FirstName]);
}
