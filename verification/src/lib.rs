//! Trust and session layer of a small login and chat backend: the failure
//! catalogue, the identity records, signed claims, the internal trust header,
//! the decisions of the request handlers and the chat room's state machine.

pub mod auth;
pub mod codec;
pub mod user;
pub mod claims;
pub mod trust;
pub mod session;
pub mod room;
pub mod accounts;
pub mod handlers;
pub mod config;
