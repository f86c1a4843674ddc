//! Typed client core for a remote conversational-AI service: identifier
//! resolution, validated request builders, endpoint construction and the
//! lifecycle of asynchronous runs.
pub mod assistant;
pub mod chat;
pub mod common;
pub mod error;
pub mod file;
pub mod fine_tuning;
pub mod message;
pub mod model;
pub mod moderation;
pub mod networking;
pub mod polling;
pub mod run;
pub mod thread;
