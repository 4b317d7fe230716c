//! Error types.

use vstd::prelude::*;
use vstd::string::StringExecFns;
use crate::models::flags::RevoltPermission;

verus! {

/// Authentication error.
#[derive(Debug, Clone, Copy, PartialEq, Eq)]
pub enum AuthenticationError {
    /// Uncategorized error.
    LabelMe,
    /// The Revolt server ran into an issue.
    InternalError,
    /// The token provided is incorrect.
    InvalidSession,
    /// The bot is already authenticated.
    AlreadyAuthenticated,
}

/// An error reported by the REST API in the body of a response that is not a success.
#[allow(missing_docs)]
#[derive(Debug, Clone, PartialEq, Eq)]
pub enum APIError {
    AlreadyOnboarded,
    UsernameTaken,
    InvalidUsername,
    UnknownUser,
    AlreadyFriends,
    AlreadySentRequest,
    Blocked,
    BlockedByOther,
    NotFriends,
    UnknownChannel,
    UnknownAttachment,
    UnknownMessage,
    CannotEditMessage,
    CannotJoinCall,
    TooManyAttachments { max: u32 },
    TooManyReplies { max: u32 },
    TooManyChannels { max: u32 },
    TooManyEmbeds { max: u32 },
    EmptyMessage,
    PayloadTooLarge,
    CannotRemoveYourself,
    GroupTooLarge { max: u32 },
    AlreadyInGroup,
    NotInGroup,
    UnknownServer,
    InvalidRole,
    Banned,
    TooManyServers { max: u32 },
    TooManyEmoji { max: u32 },
    TooManyRoles { max: u32 },
    ReachedMaximumBots,
    IsBot,
    BotIsPrivate,
    CannotReportYourself,
    MissingPermission { permission: RevoltPermission },
    MissingUserPermission { permission: String },
    NotElevated,
    NotPrivileged,
    CannotGiveMissingPermissions,
    NotOwner,
    DatabaseError { operation: String, with: String },
    InternalError,
    InvalidOperation,
    InvalidCredentials,
    InvalidProperty,
    InvalidSession,
    DuplicateNonce,
    VosoUnavailable,
    NotFound,
    NoEffect,
    FailedValidation,
    /// Unknown error
    LabelMe,
}

/// Errors that can happen when using the library.
#[derive(Debug, Clone, PartialEq, Eq)]
pub enum RSError {
    /// Command not found in the client's internal command registry
    CommandNotFound(String),
    /// Http requests error, with its description.
    Http(String),
    /// WebSocket error, with its description.
    Ws(String),
    /// Could not authenticate due to an error.
    Authentication(AuthenticationError),
    /// Unknown or unexpected error.
    Unknown(String),
    /// No error handler is set, ignore error and continue
    ErrorHandlerNotSet,
}

impl AuthenticationError {
    /// The error as text: its name.
    pub open spec fn text(self) -> Seq<char> {
        match self {
            AuthenticationError::LabelMe => "LabelMe"@,
            AuthenticationError::InternalError => "InternalError"@,
            AuthenticationError::InvalidSession => "InvalidSession"@,
            AuthenticationError::AlreadyAuthenticated => "AlreadyAuthenticated"@,
        }
    }

    /// The error as text.
    pub fn to_text(&self) -> (r: String)
        ensures
            r@ == self.text(),
    {
        match self {
            AuthenticationError::LabelMe => "LabelMe".to_owned(),
            AuthenticationError::InternalError => "InternalError".to_owned(),
            AuthenticationError::InvalidSession => "InvalidSession".to_owned(),
            AuthenticationError::AlreadyAuthenticated => "AlreadyAuthenticated".to_owned(),
        }
    }
}

impl RSError {
    /// The error as text: what kind of error it is, and what it carries.
    pub open spec fn text(self) -> Seq<char> {
        match self {
            RSError::CommandNotFound(text) => "Command not found: "@ + text@,
            RSError::Http(text) => "HTTP error: "@ + text@,
            RSError::Ws(text) => "WebSocket error: "@ + text@,
            RSError::Authentication(error) => "Authentication error: "@ + error.text(),
            RSError::Unknown(text) => "Unknown error: "@ + text@,
            RSError::ErrorHandlerNotSet => "Error handler not set"@,
        }
    }

    /// The error as text.
    pub fn to_text(&self) -> (r: String)
        ensures
            r@ == self.text(),
    {
        match self {
            RSError::CommandNotFound(text) => "Command not found: ".to_owned().concat(
                text.as_str(),
            ),
            RSError::Http(text) => "HTTP error: ".to_owned().concat(text.as_str()),
            RSError::Ws(text) => "WebSocket error: ".to_owned().concat(text.as_str()),
            RSError::Authentication(error) => "Authentication error: ".to_owned().concat(
                error.to_text().as_str(),
            ),
            RSError::Unknown(text) => "Unknown error: ".to_owned().concat(text.as_str()),
            RSError::ErrorHandlerNotSet => "Error handler not set".to_owned(),
        }
    }
}

} // verus!
