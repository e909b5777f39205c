//! The logic of a chat bot that runs shell commands for its users in a
//! sandbox: the status of a command that runs and the throttled updates that
//! show it in the chat, the command line of the sandbox, the run of a child
//! process, and the answers of the actions that users call by name.

pub mod action;
pub mod executor;
pub mod handler;
pub mod message;
pub mod order;
pub mod pattern;
pub mod render;
pub mod reply;
pub mod status;
pub mod text;
pub mod time;
pub mod traits;
