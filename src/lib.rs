//! A local HTTP gateway to a conversational assistant and its memory store.
//!
//! Every request is served by a fresh, thread-confined backend: the modules
//! here decide what each request does with it and how its outcome is answered.
pub mod chat;
pub mod cli;
pub mod config;
pub mod error;
pub mod memory;
pub mod server;
