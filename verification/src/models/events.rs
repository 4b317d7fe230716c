use vstd::prelude::*;
use crate::error::AuthenticationError;
use crate::models::attachment::Attachment;
use crate::models::channel::Channel;
use crate::models::message::{Embed, Message, MessageEdited};
use crate::models::server::{Category, Member, MemberID, Server, SystemMessageChannels};
use crate::models::user::{User, UserProfile, UserStatus};

verus! {

/// `serde_json::Value`, any JSON value. The library hands such a value on and
/// never looks inside.
#[verifier::external_type_specification]
#[verifier::external_body]
pub struct ExJson(serde_json::Value);

/// `Clone::clone` of `serde_json::Value`. Nothing is claimed of the copy.
pub assume_specification[ <serde_json::Value as Clone>::clone ](
    value: &serde_json::Value,
) -> serde_json::Value;

/// Bot is ready.
#[derive(Debug, PartialEq, Eq, Clone)]
pub struct ReadyEvent {
    /// Users.
    pub users: Vec<User>,
    /// Servers.
    pub servers: Vec<Server>,
    /// Channels.
    pub channels: Vec<Channel>,
    /// Members.
    pub members: Vec<Member>,
}

/// A partial message.
#[derive(Debug, PartialEq, Eq, Clone)]
pub struct PartialMessage {
    /// Message content.
    pub content: Option<String>,
    /// Message embeds.
    pub embeds: Vec<Embed>,
    /// Message edition date.
    pub edited: MessageEdited,
}

/// A message has been edited or otherwise updated.
#[derive(Debug, PartialEq, Eq, Clone)]
pub struct MessageUpdateEvent {
    /// Message id.
    pub message_id: String,
    /// Message channel id.
    pub channel_id: String,
    /// A partial message.
    pub data: PartialMessage,
}

/// A message has been deleted.
#[derive(Debug, PartialEq, Eq, Clone)]
pub struct MessageDeleteEvent {
    /// Message id.
    pub message_id: String,
    /// Message channel id.
    pub channel_id: String,
}

/// Specifies a field to remove on channel update.
#[derive(Debug, Clone, Copy, PartialEq, Eq)]
pub enum ChannelField {
    /// Channel description.
    Description,
    /// Channel icon.
    Icon,
}

/// A partial channel.
#[derive(Debug, PartialEq, Eq, Clone)]
pub struct PartialChannel {
    /// Channel name.
    pub name: Option<String>,
    /// Channel description.
    pub description: Option<String>,
    /// Channel icon.
    pub icon: Option<Attachment>,
    /// Whether the channel is not safe for work.
    pub nsfw: Option<bool>,
}

/// A channel details were updated.
#[derive(Debug, PartialEq, Eq, Clone)]
pub struct ChannelUpdateEvent {
    /// Channel id.
    pub channel_id: String,
    /// A partial channel.
    pub data: PartialChannel,
    /// A specified field to remove on channel update.
    pub clear: Option<ChannelField>,
}

/// A channel has been deleted.
#[derive(Debug, PartialEq, Eq, Clone)]
pub struct ChannelDeleteEvent {
    /// Channel id.
    pub channel_id: String,
}

/// A user has joined the group.
#[derive(Debug, PartialEq, Eq, Clone)]
pub struct ChannelGroupJoinEvent {
    /// Channel id.
    pub channel_id: String,
    /// User id.
    pub user_id: String,
}

/// A user has left the group.
#[derive(Debug, PartialEq, Eq, Clone)]
pub struct ChannelGroupLeaveEvent {
    /// Channel id.
    pub channel_id: String,
    /// User id.
    pub user_id: String,
}

/// A user has started typing in a channel.
#[derive(Debug, PartialEq, Eq, Clone)]
pub struct ChannelStartTypingEvent {
    /// Channel id.
    pub channel_id: String,
    /// User id.
    pub user_id: String,
}

/// A user has stopped typing in a channel.
#[derive(Debug, PartialEq, Eq, Clone)]
pub struct ChannelStopTypingEvent {
    /// Channel id.
    pub channel_id: String,
    /// User id.
    pub user_id: String,
}

/// You have acknowledged new messages in the channel up to the message id.
#[derive(Debug, PartialEq, Eq, Clone)]
pub struct ChannelAckEvent {
    /// Channel id.
    pub channel_id: String,
    /// User id.
    pub user_id: String,
    /// Message id.
    pub message_id: String,
}

/// Specifies a field to remove on server update.
#[derive(Debug, Clone, Copy, PartialEq, Eq)]
pub enum ServerField {
    /// Server icon.
    Icon,
    /// Server banner.
    Banner,
    /// Server description.
    Description,
}

/// A partial server.
#[derive(Debug, PartialEq, Eq, Clone)]
pub struct PartialServer {
    /// Server name.
    pub name: Option<String>,
    /// Server description.
    pub description: Option<String>,
    /// Server icon.
    pub icon: Option<Attachment>,
    /// Server banner.
    pub banner: Option<Attachment>,
    /// Server categories.
    pub categories: Vec<Category>,
    /// Server system message channels.
    pub system_messages: Option<SystemMessageChannels>,
    /// Whether server is not safe for work.
    pub nsfw: Option<bool>,
}

/// A server details were updated.
#[derive(Debug, PartialEq, Eq, Clone)]
pub struct ServerUpdateEvent {
    /// Server id.
    pub server_id: String,
    /// A partial server object.
    pub data: PartialServer,
    /// A specified field to remove on server update.
    pub clear: Option<ServerField>,
}

/// A server has been deleted.
#[derive(Debug, PartialEq, Eq, Clone)]
pub struct ServerDeleteEvent {
    /// Server id.
    pub server_id: String,
}

/// Specifies a field to remove on server member update.
#[derive(Debug, Clone, Copy, PartialEq, Eq)]
pub enum MemberField {
    /// Server member nickname.
    Nickname,
    /// Server member avatar.
    Avatar,
}

/// A partial server member.
#[derive(Debug, PartialEq, Eq, Clone)]
pub struct PartialMember {
    /// Member nickname.
    pub nickname: Option<String>,
    /// Member avatar.
    pub avatar: Option<Attachment>,
    /// Member roles.
    pub roles: Vec<String>,
}

/// A server member details were updated.
#[derive(Debug, PartialEq, Eq, Clone)]
pub struct ServerMemberUpdateEvent {
    /// Member id.
    pub member_id: MemberID,
    /// A partial server member.
    pub data: PartialMember,
    /// A specified field to remove on server member update.
    pub clear: Option<MemberField>,
}

/// A user has joined the server.
#[derive(Debug, PartialEq, Eq, Clone)]
pub struct ServerMemberJoinEvent {
    /// Server id.
    pub server_id: String,
    /// User id.
    pub user_id: String,
}

/// A user has left the server.
#[derive(Debug, PartialEq, Eq, Clone)]
pub struct ServerMemberLeaveEvent {
    /// Server id.
    pub server_id: String,
    /// User id.
    pub user_id: String,
}

/// Specifies a field to remove on server role update.
#[derive(Debug, Clone, Copy, PartialEq, Eq)]
pub enum RoleField {
    /// Role color.
    Color,
}

/// A server role details were updated.
#[derive(Debug, PartialEq, Eq, Clone)]
pub struct ServerRoleUpdateEvent {
    /// Server id.
    pub server_id: String,
    /// Server role id.
    pub role_id: String,
    /// A partial server role object.
    pub data: serde_json::Value,
    /// A specified field to remove on server role update.
    pub clear: Option<RoleField>,
}

/// A server role has been deleted.
#[derive(Debug, PartialEq, Eq, Clone)]
pub struct ServerRoleDeleteEvent {
    /// Server id.
    pub server_id: String,
    /// Server role id.
    pub role_id: String,
}

/// Specifies a field to remove on user update.
#[derive(Debug, Clone, Copy, PartialEq, Eq)]
pub enum UserField {
    /// User profile content.
    ProfileContent,
    /// User profile background.
    ProfileBackground,
    /// User status text.
    StatusText,
    /// User avatar.
    Avatar,
}

/// A partial user
#[derive(Debug, PartialEq, Eq, Clone)]
pub struct PartialUser {
    /// User status.
    pub status: Option<UserStatus>,
    /// User profile.
    pub profile: Option<UserProfile>,
    /// User avatar.
    pub avatar: Option<Attachment>,
    /// Whether the user is online.
    pub online: Option<bool>,
}

/// A user has been updated.
#[derive(Debug, PartialEq, Eq, Clone)]
pub struct UserUpdateEvent {
    /// User id.
    pub user_id: String,
    /// A partial user.
    pub data: PartialUser,
    /// A specified field to remove on user update.
    pub clear: Option<UserField>,
}

/// A frame sent to the server.
#[derive(Debug, PartialEq, Eq, Clone)]
pub enum ClientEvent {
    /// Authenticate with a bot token.
    Authenticate { token: String },
    /// Tell other users that typing has begun in a channel.
    BeginTyping { channel_id: String },
    /// Tell other users that typing has stopped in a channel.
    EndTyping { channel_id: String },
    /// A heartbeat, answered by the server with the same number.
    Ping { data: usize },
}

/// A frame received from the server.
#[derive(Debug, PartialEq, Eq, Clone)]
pub enum ServerEvent {
    /// The server refused the session.
    Error { error: AuthenticationError },
    /// The server accepted the token.
    Authenticated,
    /// The answer to a heartbeat.
    Pong { data: usize },
    /// Bot is ready.
    Ready(ReadyEvent),
    /// A new message received.
    Message(Message),
    /// A message has been edited or otherwise updated.
    MessageUpdate(MessageUpdateEvent),
    /// A message has been deleted.
    MessageDelete(MessageDeleteEvent),
    /// A channel has been created.
    ChannelCreate(Channel),
    /// A channel details were updated.
    ChannelUpdate(ChannelUpdateEvent),
    /// A channel has been deleted.
    ChannelDelete(ChannelDeleteEvent),
    /// A user has joined the group.
    ChannelGroupJoin(ChannelGroupJoinEvent),
    /// A user has left the group.
    ChannelGroupLeave(ChannelGroupLeaveEvent),
    /// A user has started typing in a channel.
    ChannelStartTyping(ChannelStartTypingEvent),
    /// A user has stopped typing in a channel.
    ChannelStopTyping(ChannelStopTypingEvent),
    /// You have acknowledged new messages in the channel up to the message id.
    ChannelAck(ChannelAckEvent),
    /// A server details were updated.
    ServerUpdate(ServerUpdateEvent),
    /// A server has been deleted.
    ServerDelete(ServerDeleteEvent),
    /// A server member details were updated.
    ServerMemberUpdate(ServerMemberUpdateEvent),
    /// A user has joined the server.
    ServerMemberJoin(ServerMemberJoinEvent),
    /// A user has left the server.
    ServerMemberLeave(ServerMemberLeaveEvent),
    /// A server role details were updated.
    ServerRoleUpdate(ServerRoleUpdateEvent),
    /// A server role has been deleted.
    ServerRoleDelete(ServerRoleDeleteEvent),
    /// A user has been updated.
    UserUpdate(UserUpdateEvent),
}

} // verus!
