//! Registration dialogue of a bot that mirrors subreddits into chat channels.
//!
//! The library holds the persisted row types, the conversation state machine
//! that decides what to ask, what to look up and what to write, and the text
//! of every reply. Talking to the chat service, to the subreddit service and to
//! the database is left to the caller, who performs each requested operation
//! and hands its outcome back to the state machine.

pub mod decimal;
pub mod dialogue;
pub mod models;
pub mod reply;
pub mod settings;
