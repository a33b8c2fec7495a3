//! Authentication and authorization core of an identity and access
//! management service: credentials, tokens, API keys, pagination cursors,
//! request validation, and the decision logic of every service operation.
//!
//! Database access, HTTP transport and JSON encoding live outside this
//! crate; the service operations here are written as step machines that ask
//! for the data they need and decide what happens next.

pub mod error;
pub mod time;
pub mod encoding;
pub mod cursor;
pub mod password;
pub mod text;
pub mod auth;
pub mod token;
pub mod models;
pub mod validation;
pub mod pagination;
pub mod flow;
pub mod services;
