//! Command recognition, vote-request parsing and reply sequencing for a chat
//! bot that opens votes by reaction.
//!
//! The library answers one message at a time and keeps nothing between
//! messages. It never talks to the chat platform itself: it says which
//! operations answer a message, and in which order, and the caller carries
//! them out.
//!
//! * [`command`] finds the command that a message invokes, `ping` or `vote`,
//!   and lays out the operations that answer it.
//! * [`request`] reads the request of a vote from its command line;
//!   [`grammar`] says which lines spell which request. The line is split
//!   into words by the `shell_words` crate, behind [`tokenize`].
//! * [`template`] holds the two sets of vote options and builds the reply
//!   that opens a vote.
//! * [`action`] names the operations; [`dispatch`] hands them out one by
//!   one and stops at the first that fails.
//! * [`text`] holds the helpers on characters.

pub mod text;
pub mod tokenize;
pub mod request;
pub mod grammar;
pub mod template;
pub mod action;
pub mod command;
pub mod dispatch;
