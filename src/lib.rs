//! Scheduling core of a chat bot that posts a stored tip into a channel once a day.
//!
//! The library holds the decisions: merging and validating the scheduler's
//! configuration, the lifetime of the single background task, what one tick of
//! that task does, and the text of the messages it posts. Storage, the chat
//! transport and the task runtime stay with the caller, which hands results in
//! as plain values.

pub mod config;
pub mod text;
pub mod task;
pub mod tick;
pub mod laws;
pub mod commands;
pub mod replies;
pub mod tips;
pub mod logging;
