use vstd::prelude::*;
use crate::models::attachment::Attachment;

verus! {

/// The date at which a message was last edited.
#[derive(Debug, PartialEq, Eq, Clone)]
pub struct MessageEdited {
    /// Edition date.
    pub date: String,
}

/// A name and avatar that a message is shown under.
#[derive(Debug, PartialEq, Eq, Clone)]
pub struct Masquerade {
    /// Replacement display name.
    pub name: Option<String>,
    /// Replacement avatar url.
    pub avatar: Option<String>,
}

/// Embedded content shown with a message.
#[derive(Debug, PartialEq, Eq, Clone)]
pub struct Embed {
    /// Embed url.
    pub url: Option<String>,
    /// Embed title.
    pub title: Option<String>,
    /// Embed description.
    pub description: Option<String>,
}

/// A system message.
#[derive(Debug, PartialEq, Eq, Clone)]
pub enum SystemMessage {
    Text { content: String },
    UserAdded { id: String, by: String },
    UserRemove { id: String, by: String },
    UserJoined { id: String },
    UserLeft { id: String },
    UserKicked { id: String },
    UserBanned { id: String },
    ChannelRenamed { name: String, by: String },
    ChannelDescriptionChanged { by: String },
    ChannelIconChanged { by: String },
}

/// Message content type.
#[derive(Debug, PartialEq, Eq, Clone)]
pub enum Content {
    /// A user message.
    Text(String),
    /// A system message.
    SystemMessage(SystemMessage),
}

/// A message.
#[derive(Debug, PartialEq, Eq, Clone)]
pub struct Message {
    /// Message id.
    pub id: String,
    /// Message nonce.
    pub nonce: Option<String>,
    /// Message channel id.
    pub channel_id: String,
    /// Message author id.
    pub author_id: String,
    /// Message content.
    pub content: Content,
    /// Message attachments.
    pub attachments: Vec<Attachment>,
    /// Message embeds.
    pub embeds: Vec<Embed>,
    /// Message mentions.
    pub mentions: Vec<String>,
    /// Message replies.
    pub replies: Vec<String>,
    /// Message masquerade.
    pub masquerade: Option<Masquerade>,
    /// Edition date.
    pub edited: Option<MessageEdited>,
}

impl Message {
    /// Returns whether the message has been edited.
    pub fn is_edited(&self) -> (r: bool)
        ensures
            r == self.edited is Some,
    {
        self.edited.is_some()
    }
}

impl Content {
    /// The content as the text to show for it: the text of a message that a
    /// user wrote, the text of a system message that carries one, and for any
    /// other system message a sentence that says what happened.
    pub open spec fn text(self) -> Seq<char> {
        match self {
            Content::Text(text) => text@,
            Content::SystemMessage(message) => match message {
                SystemMessage::Text { content } => content@,
                SystemMessage::UserAdded { .. } => "User added to the channel."@,
                SystemMessage::UserRemove { .. } => "User removed from the channel."@,
                SystemMessage::UserJoined { .. } => "User joined the channel."@,
                SystemMessage::UserLeft { .. } => "User left the channel."@,
                SystemMessage::UserKicked { .. } => "User kicked from the channel."@,
                SystemMessage::UserBanned { .. } => "User banned from the channel."@,
                SystemMessage::ChannelRenamed { .. } => "Channel renamed."@,
                SystemMessage::ChannelDescriptionChanged { .. } => "Channel description changed."@,
                SystemMessage::ChannelIconChanged { .. } => "Channel icon changed."@,
            },
        }
    }

    /// The content as the text to show for it.
    pub fn to_text(&self) -> (r: String)
        ensures
            r@ == self.text(),
    {
        match self {
            Content::Text(text) => text.clone(),
            Content::SystemMessage(message) => match message {
                SystemMessage::Text { content } => content.clone(),
                SystemMessage::UserAdded { .. } => "User added to the channel.".to_owned(),
                SystemMessage::UserRemove { .. } => "User removed from the channel.".to_owned(),
                SystemMessage::UserJoined { .. } => "User joined the channel.".to_owned(),
                SystemMessage::UserLeft { .. } => "User left the channel.".to_owned(),
                SystemMessage::UserKicked { .. } => "User kicked from the channel.".to_owned(),
                SystemMessage::UserBanned { .. } => "User banned from the channel.".to_owned(),
                SystemMessage::ChannelRenamed { .. } => "Channel renamed.".to_owned(),
                SystemMessage::ChannelDescriptionChanged { .. } => "Channel description changed.".to_owned(),
                SystemMessage::ChannelIconChanged { .. } => "Channel icon changed.".to_owned(),
            },
        }
    }
}

} // verus!
