//! Properties of the validators and the handlers' decisions.
use vstd::prelude::*;
use crate::routes::{
    add_email_start_spec, insert_reply, lookup_reply, message_refusal, AddEmailAction, Outcome,
};
use crate::validators::{email_check, matches_email_grammar, text_field_check, ValidationError};

verus! {

/// The reply to adding `email` and the store's addresses afterwards, against
/// a store holding the addresses `store` whose operations all succeed.
pub open spec fn add_email_run(store: Seq<Seq<char>>, email: Seq<char>) -> (Outcome, Seq<Seq<char>>) {
    match add_email_start_spec(email) {
        AddEmailAction::Reply(o) => (o, store),
        AddEmailAction::Lookup => match lookup_reply(Ok(store.contains(email))) {
            Some(o) => (o, store),
            None => (insert_reply(Ok(())), store.push(email)),
        },
    }
}

/// Every email address longer than 1024 characters is refused as too long.
pub proof fn long_email_is_too_long(s: Seq<char>)
    requires
        s.len() > 1024,
    ensures
        email_check(s) == Err::<(), ValidationError>(ValidationError::TooLong),
{
}

/// An email address of at most 1024 characters is refused as malformed exactly
/// when it is not of the email grammar, and accepted otherwise.
pub proof fn email_format_decides(s: Seq<char>)
    requires
        s.len() <= 1024,
    ensures
        email_check(s) == Err::<(), ValidationError>(ValidationError::InvalidFormat) <==> !matches_email_grammar(s),
        email_check(s) is Ok <==> matches_email_grammar(s),
{
}

/// An empty text field is refused as empty, one of 50,000 characters or more
/// as too long, and one of 1 to 49,999 characters is accepted.
pub proof fn text_field_bounds(s: Seq<char>)
    ensures
        s.len() == 0 ==> text_field_check(s) == Err::<(), ValidationError>(ValidationError::Empty),
        s.len() >= 50000 ==> text_field_check(s) == Err::<(), ValidationError>(ValidationError::TooLong),
        1 <= s.len() <= 49999 ==> text_field_check(s) is Ok,
{
}

/// Adding a valid address that the store does not hold, twice in a row,
/// answers "added" and then "already exists", and the store ends with exactly
/// one record of that address.
pub proof fn add_email_twice_keeps_one(store: Seq<Seq<char>>, email: Seq<char>)
    requires
        email_check(email) is Ok,
        !store.contains(email),
    ensures
        add_email_run(store, email).0 == Outcome::AddedEmail,
        add_email_run(add_email_run(store, email).1, email).0 == Outcome::AlreadyExists,
        add_email_run(add_email_run(store, email).1, email).1 == add_email_run(store, email).1,
        add_email_run(add_email_run(store, email).1, email).1.to_multiset().count(email) == 1,
{
    broadcast use vstd::seq_lib::group_to_multiset_ensures;

    let after = store.push(email);
    assert(after.last() == email);
    assert(after.contains(email));
    assert(store.to_multiset().count(email) == 0);
}

/// With a valid email, a message whose subject and content have 1 to 49,999
/// characters is stored; one whose non-empty subject or content reaches
/// 50,000 characters is refused as too long.
pub proof fn message_field_limits(email: Seq<char>, subject: Seq<char>, content: Seq<char>)
    requires
        email_check(email) is Ok,
    ensures
        1 <= subject.len() <= 49999 && 1 <= content.len() <= 49999 ==> message_refusal(
            email,
            subject,
            content,
        ) is None,
        subject.len() >= 1 && content.len() >= 1 && (subject.len() >= 50000 || content.len()
            >= 50000) ==> message_refusal(email, subject, content) == Some(Outcome::FieldTooLong),
{
}

} // verus!
