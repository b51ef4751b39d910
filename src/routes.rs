//! The decisions of the request handlers. Each handler is split into steps:
//! the caller performs the store operation a step asks for and hands its
//! outcome to the next step, which decides the reply.
use vstd::prelude::*;
use vstd::string::StringExecFns;
use crate::models::{Message, StoreError, SubmittedEmailModel, SubmittedMessageModel};
use crate::validators::{
    email_check, email_validator, text_field_check, validate_text_field, ValidationError,
};

verus! {

/// What a handler answers: each variant has a fixed status code and body.
pub enum Outcome {
    /// The index page.
    Hello,
    /// A submission was stored. The message endpoint answers with this body too.
    AddedEmail,
    /// The address was stored before; nothing changed.
    AlreadyExists,
    /// The email address has more than 1024 characters.
    EmailTooLong,
    /// The email address is not of the email grammar.
    InvalidEmail,
    /// A message's subject or content has 50,000 characters or more.
    FieldTooLong,
    /// A message's subject or content is empty.
    FieldEmpty,
    /// The existence lookup in the store failed.
    QueryFailed,
    /// An insertion into the store failed, with the store's error category.
    StoreFailed(String),
}

/// The HTTP status code of each reply.
pub open spec fn outcome_status(o: Outcome) -> u16 {
    match o {
        Outcome::Hello | Outcome::AddedEmail | Outcome::AlreadyExists => 200,
        Outcome::EmailTooLong | Outcome::FieldTooLong | Outcome::FieldEmpty => 413,
        Outcome::InvalidEmail => 406,
        Outcome::QueryFailed | Outcome::StoreFailed(_) => 500,
    }
}

/// The body text of each reply.
pub open spec fn outcome_body(o: Outcome) -> Seq<char> {
    match o {
        Outcome::Hello => "Hello, world!"@,
        Outcome::AddedEmail => "Added email"@,
        Outcome::AlreadyExists => "No changes were made, email already exists in database"@,
        Outcome::EmailTooLong => "Email should not exceed 1024 characters"@,
        Outcome::InvalidEmail => "Invalid email"@,
        Outcome::FieldTooLong => "The message content or subject was too long"@,
        Outcome::FieldEmpty => "The message content or subject was empty"@,
        Outcome::QueryFailed => "Something went wrong with database query"@,
        Outcome::StoreFailed(detail) => detail@,
    }
}

impl Outcome {
    /// The HTTP status code of this reply.
    pub fn status(&self) -> (r: u16)
        ensures
            r == outcome_status(*self),
    {
        match self {
            Outcome::Hello | Outcome::AddedEmail | Outcome::AlreadyExists => 200,
            Outcome::EmailTooLong | Outcome::FieldTooLong | Outcome::FieldEmpty => 413,
            Outcome::InvalidEmail => 406,
            Outcome::QueryFailed | Outcome::StoreFailed(_) => 500,
        }
    }

    /// The body text of this reply.
    pub fn body(&self) -> (r: String)
        ensures
            r@ == outcome_body(*self),
    {
        match self {
            Outcome::Hello => String::from_str("Hello, world!"),
            Outcome::AddedEmail => String::from_str("Added email"),
            Outcome::AlreadyExists => String::from_str(
                "No changes were made, email already exists in database",
            ),
            Outcome::EmailTooLong => String::from_str("Email should not exceed 1024 characters"),
            Outcome::InvalidEmail => String::from_str("Invalid email"),
            Outcome::FieldTooLong => String::from_str(
                "The message content or subject was too long",
            ),
            Outcome::FieldEmpty => String::from_str("The message content or subject was empty"),
            Outcome::QueryFailed => String::from_str("Something went wrong with database query"),
            Outcome::StoreFailed(detail) => detail.clone(),
        }
    }
}

/// The reply to a refused email address.
pub open spec fn email_refusal(e: ValidationError) -> Outcome {
    match e {
        ValidationError::TooLong => Outcome::EmailTooLong,
        _ => Outcome::InvalidEmail,
    }
}

/// The reply to a refused subject or content.
pub open spec fn field_refusal(e: ValidationError) -> Outcome {
    match e {
        ValidationError::Empty => Outcome::FieldEmpty,
        _ => Outcome::FieldTooLong,
    }
}

/// The first step of adding an email address.
pub enum AddEmailAction {
    /// Answer at once.
    Reply(Outcome),
    /// Look the address up in the store, then call `add_email_on_lookup`.
    Lookup,
}

/// The step after the existence lookup.
pub enum AddEmailNext {
    /// Answer at once.
    Reply(Outcome),
    /// Insert the record, then call `reply_to_insert`.
    Insert(SubmittedEmailModel),
}

/// The step after validating a submitted message.
pub enum MessageNext {
    /// Answer at once.
    Reply(Outcome),
    /// Insert the record, then call `reply_to_insert`.
    Insert(SubmittedMessageModel),
}

/// The first step of adding the address `email`.
pub open spec fn add_email_start_spec(email: Seq<char>) -> AddEmailAction {
    match email_check(email) {
        Err(e) => AddEmailAction::Reply(email_refusal(e)),
        Ok(_) => AddEmailAction::Lookup,
    }
}

/// The reply decided by the lookup outcome, or `None` when the address is new
/// and must be inserted.
pub open spec fn lookup_reply(found: Result<bool, StoreError>) -> Option<Outcome> {
    match found {
        Err(_) => Some(Outcome::QueryFailed),
        Ok(true) => Some(Outcome::AlreadyExists),
        Ok(false) => None,
    }
}

/// The reply to the outcome of an insertion.
pub open spec fn insert_reply(outcome: Result<(), StoreError>) -> Outcome {
    match outcome {
        Ok(_) => Outcome::AddedEmail,
        Err(e) => Outcome::StoreFailed(e.detail),
    }
}

/// The refusal of a message with these fields, or `None` when it is to be stored.
/// The email is checked first, then the content, then the subject.
pub open spec fn message_refusal(email: Seq<char>, subject: Seq<char>, content: Seq<char>) -> Option<
    Outcome,
> {
    if email_check(email) is Err {
        Some(email_refusal(email_check(email)->Err_0))
    } else if text_field_check(content) is Err {
        Some(field_refusal(text_field_check(content)->Err_0))
    } else if text_field_check(subject) is Err {
        Some(field_refusal(text_field_check(subject)->Err_0))
    } else {
        None
    }
}

/// `GET /`: a fixed greeting.
pub fn index() -> (r: Outcome)
    ensures
        r == Outcome::Hello,
{
    Outcome::Hello
}

fn email_refusal_of(e: ValidationError) -> (r: Outcome)
    ensures
        r == email_refusal(e),
{
    match e {
        ValidationError::TooLong => Outcome::EmailTooLong,
        _ => Outcome::InvalidEmail,
    }
}

fn field_refusal_of(e: ValidationError) -> (r: Outcome)
    ensures
        r == field_refusal(e),
{
    match e {
        ValidationError::Empty => Outcome::FieldEmpty,
        _ => Outcome::FieldTooLong,
    }
}

/// `GET /add-email/{email}`, first step: refuse an invalid address, else ask
/// for a lookup.
pub fn add_email_start(email: &String) -> (r: AddEmailAction)
    ensures
        r == add_email_start_spec(email@),
{
    match email_validator(email.clone()) {
        Err(e) => AddEmailAction::Reply(email_refusal_of(e)),
        Ok(_) => AddEmailAction::Lookup,
    }
}

/// Second step: a failed lookup or a known address ends the request; a new
/// address is to be inserted with the given creation time.
pub fn add_email_on_lookup(email: String, created_at: String, found: Result<bool, StoreError>) -> (r:
    AddEmailNext)
    ensures
        match lookup_reply(found) {
            Some(o) => r == AddEmailNext::Reply(o),
            None => r == AddEmailNext::Insert(SubmittedEmailModel { email, created_at }),
        },
{
    match found {
        Err(_) => AddEmailNext::Reply(Outcome::QueryFailed),
        Ok(true) => AddEmailNext::Reply(Outcome::AlreadyExists),
        Ok(false) => AddEmailNext::Insert(SubmittedEmailModel { email, created_at }),
    }
}

/// Last step of both submissions: report the insertion's outcome.
pub fn reply_to_insert(outcome: Result<(), StoreError>) -> (r: Outcome)
    ensures
        r == insert_reply(outcome),
{
    match outcome {
        Ok(_) => Outcome::AddedEmail,
        Err(e) => Outcome::StoreFailed(e.detail),
    }
}

/// `POST /message`, first step: refuse an invalid email, content or subject,
/// else ask for the record to be inserted with the given creation time.
pub fn message_start(msg: Message, created_at: String) -> (r: MessageNext)
    ensures
        match message_refusal(msg.email@, msg.subject@, msg.content@) {
            Some(o) => r == MessageNext::Reply(o),
            None => r == MessageNext::Insert(
                SubmittedMessageModel {
                    email: msg.email,
                    subject: msg.subject,
                    content: msg.content,
                    created_at,
                },
            ),
        },
{
    if let Err(e) = email_validator(msg.email.clone()) {
        return MessageNext::Reply(email_refusal_of(e));
    }
    if let Err(e) = validate_text_field(msg.content.as_str()) {
        return MessageNext::Reply(field_refusal_of(e));
    }
    if let Err(e) = validate_text_field(msg.subject.as_str()) {
        return MessageNext::Reply(field_refusal_of(e));
    }
    MessageNext::Insert(
        SubmittedMessageModel {
            email: msg.email,
            subject: msg.subject,
            content: msg.content,
            created_at,
        },
    )
}

} // verus!
