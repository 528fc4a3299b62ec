//! A chat-command gateway that stores the media of allowed conversations.
//!
//! The library decides and performs nothing: it authorizes a requester,
//! routes each message by the state of its conversation, names and places the
//! file of a download, and steps a download from its request to its one
//! result. A driver performs what is decided and reports back.

pub mod auth;
pub mod dispatch;
pub mod error;
pub mod event;
pub mod fetch;
pub mod filename;
pub mod gateway;
pub mod notify;
pub mod router;
