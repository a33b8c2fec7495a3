//! The operations of the service, each written as a step machine: it starts
//! from the request, asks the queries it needs one at a time, and decides
//! from each answer what to do next.

pub mod access;
pub mod api_key;
pub mod audit_logs;
pub mod organization;
pub mod membership;
pub mod role;
pub mod permission;
pub mod session;
pub mod user;
