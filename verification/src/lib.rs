//! Navigation and source highlighting for an explorer of compiled code blocks.
//!
//! A session walks the instructions of a block, follows calls and nested
//! blocks into further blocks, keeps a history of the jumps it made so that
//! each can be undone, and marks in the source text the bytes that the
//! selected instruction was compiled from.

pub mod command;
pub mod data;
pub mod highlight;
pub mod listing;
pub mod navigation;
pub mod prompt;
pub mod session;
pub mod status;
