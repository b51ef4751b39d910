//! The records kept in the document store, and the submitted message payload.
use vstd::prelude::*;

verus! {

/// A stored email address with the time it was first submitted.
pub struct SubmittedEmailModel {
    pub email: String,
    /// RFC 3339 timestamp, set when the record is created.
    pub created_at: String,
}

/// A stored message with the time it was submitted.
pub struct SubmittedMessageModel {
    pub email: String,
    pub subject: String,
    pub content: String,
    /// RFC 3339 timestamp, set when the record is created.
    pub created_at: String,
}

/// A message as a client submits it.
pub struct Message {
    pub email: String,
    pub subject: String,
    pub content: String,
}

/// A failed document-store operation; `detail` is the store's error category.
pub struct StoreError {
    pub detail: String,
}

} // verus!
