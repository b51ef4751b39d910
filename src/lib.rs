//! Validation, record building and reply decisions for a small service that
//! collects email addresses and short messages.

pub mod validators;
pub mod models;
pub mod routes;
pub mod laws;
