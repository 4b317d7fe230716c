//! Revolt API models.

use vstd::prelude::*;

pub mod attachment;
pub mod channel;
pub mod events;
pub mod flags;
pub mod message;
pub mod server;
pub mod user;

pub use attachment::{Attachment, AttachmentMetadata, AttachmentTag};
pub use channel::{Channel, DirectMessageChannel, GroupChannel, TextChannel, VoiceChannel};
pub use flags::{RevoltPermission, ServerFlags, UserFlags};
pub use message::{Content, Embed, Masquerade, Message, MessageEdited, SystemMessage};
pub use server::{
    Category, CreateBan, Member, MemberID, Server, ServerMembers, SystemMessageChannels,
};
pub use user::{BotInformation, User, UserProfile, UserStatus};

verus! {

/// Models id type.
pub type ID = String;

} // verus!
