//! Core of a tool-augmented conversational agent: a loop controller that
//! drives a chat-completion endpoint through rounds of "think, optionally
//! invoke a tool, observe the result" until a final answer is produced or
//! the iteration budget runs out.
//!
//! The library holds the verified logic: the message model, the context
//! window selector, the prompt composer, the two-tier directive parser, the
//! tool router and the loop state machine. Network and file I/O live with
//! the caller, which drives the state machine and performs the calls it
//! asks for.

pub mod agent;
pub mod directive;
pub mod history;
pub mod indexing;
pub mod prompt;
pub mod text;
pub mod window;
