//! A chat-bot library: command routing and completion-request handling.
//!
//! The library classifies an inbound user command, decides what reply or
//! outbound completion request it calls for, and turns the completion
//! endpoint's response into the single reply that is sent back.

pub mod command;
pub mod completion;
pub mod decimal;
pub mod response;
pub mod router;
