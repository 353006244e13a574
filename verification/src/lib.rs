//! A tool-call orchestrator for a chat-completion provider.
//!
//! Given a user message, the orchestrator builds a conversation, has it
//! submitted to a chat-completion provider together with a fixed tool
//! catalog, executes the tool invocations the provider requests, appends
//! each tool's textual result to the conversation, has the extended
//! conversation resubmitted, and returns the provider's final reply.
//! Network calls themselves are performed by the embedding program, which
//! drives the orchestrator's state machine.

pub mod args;
pub mod catalog;
pub mod messages;
pub mod orchestrator;
pub mod text;
pub mod timestamp;
pub mod tools;
pub mod weather;
