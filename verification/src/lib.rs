//! Core of a chat-bot bridge between a messaging platform's webhook events
//! and a task/project application.
//!
//! The library holds the verified logic: the link-token exchange with its
//! 15-minute expiry, the per-chat active-project sessions, the versioned
//! configuration record with its migration step, the command dispatcher,
//! and the notification gate. I/O toward the messaging platform and the
//! repository is left to the surrounding program, which drives the
//! dispatcher's step machine.

pub mod commands;
pub mod config;
pub mod dash;
pub mod errors;
pub mod html;
pub mod ids;
pub mod notify;
pub mod render;
pub mod repo;
pub mod service;
pub mod session;
pub mod text;
pub mod tokens;
