//! The actions that users call by name.

pub mod all;
pub mod duck;
pub mod echo;
pub mod exec;
pub mod help;
pub mod ping;
pub mod retweet;
pub mod risc;
pub mod start;
pub mod test;
