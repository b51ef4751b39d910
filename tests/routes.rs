use mailbox_service::models::{Message, StoreError, SubmittedEmailModel, SubmittedMessageModel};
use mailbox_service::routes::{
    add_email_on_lookup, add_email_start, index, message_start, reply_to_insert, AddEmailAction,
    AddEmailNext, MessageNext, Outcome,
};

/// Runs the add-email steps against an in-memory list of stored records.
fn add_email(store: &mut Vec<SubmittedEmailModel>, email: &str) -> Outcome {
    let email = email.to_string();
    match add_email_start(&email) {
        AddEmailAction::Reply(o) => o,
        AddEmailAction::Lookup => {
            let found = store.iter().any(|r| r.email == email);
            match add_email_on_lookup(email, "2024-01-01T00:00:00+00:00".to_string(), Ok(found)) {
                AddEmailNext::Reply(o) => o,
                AddEmailNext::Insert(record) => {
                    store.push(record);
                    reply_to_insert(Ok(()))
                }
            }
        }
    }
}

/// Runs the message steps against an in-memory list of stored records.
fn submit(store: &mut Vec<SubmittedMessageModel>, email: &str, subject: &str, content: &str) -> Outcome {
    let msg = Message {
        email: email.to_string(),
        subject: subject.to_string(),
        content: content.to_string(),
    };
    match message_start(msg, "2024-01-01T00:00:00+00:00".to_string()) {
        MessageNext::Reply(o) => o,
        MessageNext::Insert(record) => {
            store.push(record);
            reply_to_insert(Ok(()))
        }
    }
}

fn failure(detail: &str) -> StoreError {
    StoreError { detail: detail.to_string() }
}

#[test]
fn index_greets() {
    let o = index();
    assert_eq!(o.status(), 200);
    assert_eq!(o.body(), "Hello, world!");
}

#[test]
fn add_email_twice_against_empty_store() {
    let mut store = Vec::new();
    let first = add_email(&mut store, "foo@bar.com");
    assert_eq!(first.status(), 200);
    assert!(first.body().contains("Added email"));
    let second = add_email(&mut store, "foo@bar.com");
    assert_eq!(second.status(), 200);
    assert!(second.body().contains("already exists"));
    assert_eq!(store.len(), 1);
    assert_eq!(store[0].email, "foo@bar.com");
}

#[test]
fn add_two_different_emails() {
    let mut store = Vec::new();
    assert!(matches!(add_email(&mut store, "a@b.com"), Outcome::AddedEmail));
    assert!(matches!(add_email(&mut store, "c@d.com"), Outcome::AddedEmail));
    assert_eq!(store.len(), 2);
}

#[test]
fn add_email_refuses_invalid_address() {
    let mut store = Vec::new();
    let o = add_email(&mut store, "not-an-email");
    assert_eq!(o.status(), 406);
    assert_eq!(o.body(), "Invalid email");
    assert!(store.is_empty());
}

#[test]
fn add_email_refuses_long_address() {
    let mut store = Vec::new();
    let o = add_email(&mut store, &format!("{}@example.com", "a".repeat(1100)));
    assert_eq!(o.status(), 413);
    assert_eq!(o.body(), "Email should not exceed 1024 characters");
    assert!(store.is_empty());
}

#[test]
fn add_email_lookup_failure() {
    match add_email_on_lookup("foo@bar.com".to_string(), "t".to_string(), Err(failure("timeout"))) {
        AddEmailNext::Reply(o) => {
            assert_eq!(o.status(), 500);
            assert_eq!(o.body(), "Something went wrong with database query");
        }
        AddEmailNext::Insert(_) => panic!("a failed lookup must not insert"),
    }
}

#[test]
fn add_email_lookup_new_address_builds_record() {
    match add_email_on_lookup("foo@bar.com".to_string(), "2024-05-06T07:08:09+00:00".to_string(), Ok(false)) {
        AddEmailNext::Insert(r) => {
            assert_eq!(r.email, "foo@bar.com");
            assert_eq!(r.created_at, "2024-05-06T07:08:09+00:00");
        }
        AddEmailNext::Reply(_) => panic!("a new address must be inserted"),
    }
}

#[test]
fn insert_failure_reports_store_detail() {
    let o = reply_to_insert(Err(failure("Write")));
    assert_eq!(o.status(), 500);
    assert_eq!(o.body(), "Write");
}

#[test]
fn message_with_empty_content_is_refused() {
    let mut store = Vec::new();
    let o = submit(&mut store, "x@y.com", "hi", "");
    assert!(matches!(o, Outcome::FieldEmpty));
    assert_eq!(o.status(), 413);
    assert!(store.is_empty());
}

#[test]
fn message_with_empty_subject_is_refused() {
    let mut store = Vec::new();
    let o = submit(&mut store, "x@y.com", "", "hello");
    assert!(matches!(o, Outcome::FieldEmpty));
    assert!(store.is_empty());
}

#[test]
fn message_at_field_limits() {
    let mut store = Vec::new();
    let long = "a".repeat(49_999);
    let o = submit(&mut store, "x@y.com", &long, &long);
    assert_eq!(o.status(), 200);
    assert_eq!(o.body(), "Added email");
    assert_eq!(store.len(), 1);
    assert_eq!(store[0].subject.len(), 49_999);

    let too_long = "a".repeat(50_000);
    let o = submit(&mut store, "x@y.com", "hi", &too_long);
    assert!(matches!(o, Outcome::FieldTooLong));
    assert_eq!(o.status(), 413);
    assert_eq!(o.body(), "The message content or subject was too long");
    let o = submit(&mut store, "x@y.com", &too_long, "hello");
    assert!(matches!(o, Outcome::FieldTooLong));
    assert_eq!(store.len(), 1);
}

#[test]
fn message_checks_email_first() {
    let mut store = Vec::new();
    let o = submit(&mut store, "missing@", "", "");
    assert_eq!(o.status(), 406);
    let o = submit(&mut store, &"x".repeat(1025), "hi", "there");
    assert!(matches!(o, Outcome::EmailTooLong));
    assert!(store.is_empty());
}

#[test]
fn message_record_keeps_fields() {
    let msg = Message {
        email: "x@y.com".to_string(),
        subject: "hi".to_string(),
        content: "there".to_string(),
    };
    match message_start(msg, "2024-05-06T07:08:09+00:00".to_string()) {
        MessageNext::Insert(r) => {
            assert_eq!(r.email, "x@y.com");
            assert_eq!(r.subject, "hi");
            assert_eq!(r.content, "there");
            assert_eq!(r.created_at, "2024-05-06T07:08:09+00:00");
        }
        MessageNext::Reply(_) => panic!("a valid message must be inserted"),
    }
}

#[test]
fn messages_are_not_deduplicated() {
    let mut store = Vec::new();
    assert!(matches!(submit(&mut store, "x@y.com", "hi", "there"), Outcome::AddedEmail));
    assert!(matches!(submit(&mut store, "x@y.com", "hi", "there"), Outcome::AddedEmail));
    assert_eq!(store.len(), 2);
}
