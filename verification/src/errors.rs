//! The error taxonomy of the service, with the user-facing text of each
//! error.

use vstd::prelude::*;
use vstd::string::StringExecFns;
use crate::ids::{spec_uuid_text, EntityId};

verus! {

/// Errors that can arise in the service.
///
/// Repository failures pass through as [`TelegramError::Database`], carrying
/// the collaborator's rendered error text.
#[derive(Debug, Clone, PartialEq, Eq)]
pub enum TelegramError {
    /// The messaging platform's delivery API failed.
    Api(String),
    /// No bot credential is present.
    NotConfigured,
    /// The operation requires a linked chat, but none exists.
    NotLinked,
    /// The presented link token is unknown.
    InvalidLinkToken,
    /// The presented link token has outlived its fifteen minutes.
    LinkTokenExpired,
    /// A repository failure, passed through.
    Database(String),
    /// No project exists under the given identifier.
    ProjectNotFound(EntityId),
    /// No task exists under the given identifier.
    TaskNotFound(EntityId),
    /// A command needed an active project, and the chat has set none.
    NoActiveProject,
    /// The command's arguments are malformed.
    InvalidCommand(String),
}

/// The user-facing text of an error.
pub open spec fn spec_error_message(e: TelegramError) -> Seq<char> {
    match e {
        TelegramError::Api(s) => "Telegram API error: "@ + s@,
        TelegramError::NotConfigured => "Bot token not configured"@,
        TelegramError::NotLinked => "Account not linked"@,
        TelegramError::InvalidLinkToken => "Invalid link token"@,
        TelegramError::LinkTokenExpired => "Link token expired"@,
        TelegramError::Database(s) => "Database error: "@ + s@,
        TelegramError::ProjectNotFound(id) => "Project not found: "@ + spec_uuid_text(id.value),
        TelegramError::TaskNotFound(id) => "Task not found: "@ + spec_uuid_text(id.value),
        TelegramError::NoActiveProject => "No active project set. Use /project <id> to set one."@,
        TelegramError::InvalidCommand(s) => "Invalid command: "@ + s@,
    }
}

impl TelegramError {
    /// The user-facing text of this error.
    pub fn message(&self) -> (r: String)
        ensures
            r@ == spec_error_message(*self),
    {
        match self {
            TelegramError::Api(s) => String::from_str("Telegram API error: ").concat(s.as_str()),
            TelegramError::NotConfigured => String::from_str("Bot token not configured"),
            TelegramError::NotLinked => String::from_str("Account not linked"),
            TelegramError::InvalidLinkToken => String::from_str("Invalid link token"),
            TelegramError::LinkTokenExpired => String::from_str("Link token expired"),
            TelegramError::Database(s) => String::from_str("Database error: ").concat(s.as_str()),
            TelegramError::ProjectNotFound(id) => String::from_str("Project not found: ").concat(
                id.text().as_str(),
            ),
            TelegramError::TaskNotFound(id) => String::from_str("Task not found: ").concat(
                id.text().as_str(),
            ),
            TelegramError::NoActiveProject => String::from_str(
                "No active project set. Use /project <id> to set one.",
            ),
            TelegramError::InvalidCommand(s) => String::from_str("Invalid command: ").concat(
                s.as_str(),
            ),
        }
    }
}

} // verus!
