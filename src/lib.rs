//! Conversation and session engine of an events chat bot: the per-chat
//! dialogue state machine, the session store with token renewal, and the
//! decisions of the retrying request layer. Transport and HTTP live outside.

pub mod auth;
pub mod callback;
pub mod command;
pub mod dialogue;
pub mod request_client;
pub mod text;
pub mod error;
pub mod schemas;
