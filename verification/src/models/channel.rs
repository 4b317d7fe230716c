use vstd::prelude::*;
use crate::models::attachment::{Attachment, AttachmentView};

verus! {

/// A text channel.
#[derive(Debug, PartialEq, Eq)]
pub struct TextChannel {
    /// Channel id.
    pub id: String,
    /// Channel server id.
    pub server_id: String,
    /// Channel name.
    pub name: String,
    /// Channel description.
    pub description: Option<String>,
    /// Channel icon.
    pub icon: Option<Attachment>,
    /// ID of last message in the channel.
    pub last_message_id: Option<String>,
    /// Channel is not safe for work (+18).
    pub nsfw: bool,
}

/// What a [`TextChannel`] holds, as mathematical values.
pub struct TextChannelView {
    pub id: Seq<char>,
    pub server_id: Seq<char>,
    pub name: Seq<char>,
    pub description: Option<Seq<char>>,
    pub icon: Option<AttachmentView>,
    pub last_message_id: Option<Seq<char>>,
    pub nsfw: bool,
}

impl DeepView for TextChannel {
    type V = TextChannelView;

    open spec fn deep_view(&self) -> TextChannelView {
        TextChannelView {
            id: self.id.deep_view(),
            server_id: self.server_id.deep_view(),
            name: self.name.deep_view(),
            description: self.description.deep_view(),
            icon: self.icon.deep_view(),
            last_message_id: self.last_message_id.deep_view(),
            nsfw: self.nsfw,
        }
    }
}

impl Clone for TextChannel {
    fn clone(&self) -> (r: Self)
        ensures
            r.deep_view() == self.deep_view(),
    {
        TextChannel {
            id: self.id.clone(),
            server_id: self.server_id.clone(),
            name: self.name.clone(),
            description: self.description.clone(),
            icon: self.icon.clone(),
            last_message_id: self.last_message_id.clone(),
            nsfw: self.nsfw,
        }
    }
}

/// A voice channel.
#[derive(Debug, PartialEq, Eq)]
pub struct VoiceChannel {
    /// Channel id.
    pub id: String,
    /// Channel server id.
    pub server_id: String,
    /// Channel name.
    pub name: String,
    /// Channel description.
    pub description: Option<String>,
    /// Channel icon.
    pub icon: Option<Attachment>,
    /// Channel is not safe for work.
    pub nsfw: bool,
}

/// What a [`VoiceChannel`] holds, as mathematical values.
pub struct VoiceChannelView {
    pub id: Seq<char>,
    pub server_id: Seq<char>,
    pub name: Seq<char>,
    pub description: Option<Seq<char>>,
    pub icon: Option<AttachmentView>,
    pub nsfw: bool,
}

impl DeepView for VoiceChannel {
    type V = VoiceChannelView;

    open spec fn deep_view(&self) -> VoiceChannelView {
        VoiceChannelView {
            id: self.id.deep_view(),
            server_id: self.server_id.deep_view(),
            name: self.name.deep_view(),
            description: self.description.deep_view(),
            icon: self.icon.deep_view(),
            nsfw: self.nsfw,
        }
    }
}

impl Clone for VoiceChannel {
    fn clone(&self) -> (r: Self)
        ensures
            r.deep_view() == self.deep_view(),
    {
        VoiceChannel {
            id: self.id.clone(),
            server_id: self.server_id.clone(),
            name: self.name.clone(),
            description: self.description.clone(),
            icon: self.icon.clone(),
            nsfw: self.nsfw,
        }
    }
}

/// A group channel.
#[derive(Debug, PartialEq, Eq)]
pub struct GroupChannel {
    /// Group id.
    pub id: String,
    /// Group owner id.
    pub owner_id: String,
    /// Group name.
    pub name: String,
    /// Group description.
    pub description: Option<String>,
    /// List of user ids who are participating in this group.
    pub recipients: Vec<String>,
    /// Group icon.
    pub icon: Option<Attachment>,
    /// ID of last message in the group.
    pub last_message_id: Option<String>,
    /// Group is not safe for work.
    pub nsfw: bool,
}

/// What a [`GroupChannel`] holds, as mathematical values.
pub struct GroupChannelView {
    pub id: Seq<char>,
    pub owner_id: Seq<char>,
    pub name: Seq<char>,
    pub description: Option<Seq<char>>,
    pub recipients: Seq<Seq<char>>,
    pub icon: Option<AttachmentView>,
    pub last_message_id: Option<Seq<char>>,
    pub nsfw: bool,
}

impl DeepView for GroupChannel {
    type V = GroupChannelView;

    open spec fn deep_view(&self) -> GroupChannelView {
        GroupChannelView {
            id: self.id.deep_view(),
            owner_id: self.owner_id.deep_view(),
            name: self.name.deep_view(),
            description: self.description.deep_view(),
            recipients: self.recipients.deep_view(),
            icon: self.icon.deep_view(),
            last_message_id: self.last_message_id.deep_view(),
            nsfw: self.nsfw,
        }
    }
}

impl Clone for GroupChannel {
    fn clone(&self) -> (r: Self)
        ensures
            r.deep_view() == self.deep_view(),
    {
        GroupChannel {
            id: self.id.clone(),
            owner_id: self.owner_id.clone(),
            name: self.name.clone(),
            description: self.description.clone(),
            recipients: self.recipients.clone(),
            icon: self.icon.clone(),
            last_message_id: self.last_message_id.clone(),
            nsfw: self.nsfw,
        }
    }
}

/// A DM channel.
#[derive(Debug, PartialEq, Eq)]
pub struct DirectMessageChannel {
    /// Channel id.
    pub id: String,
    /// Whether this DM is active.
    pub active: bool,
    /// List of user ids who are participating in this DM.
    pub recipients: [String; 2],
    /// ID of the last message in the channel.
    pub last_message_id: Option<String>,
}

/// What a [`DirectMessageChannel`] holds, as mathematical values.
pub struct DirectMessageChannelView {
    pub id: Seq<char>,
    pub active: bool,
    pub recipients: Seq<Seq<char>>,
    pub last_message_id: Option<Seq<char>>,
}

impl DeepView for DirectMessageChannel {
    type V = DirectMessageChannelView;

    open spec fn deep_view(&self) -> DirectMessageChannelView {
        DirectMessageChannelView {
            id: self.id.deep_view(),
            active: self.active,
            recipients: self.recipients.deep_view(),
            last_message_id: self.last_message_id.deep_view(),
        }
    }
}

impl Clone for DirectMessageChannel {
    fn clone(&self) -> (r: Self)
        ensures
            r.deep_view() == self.deep_view(),
    {
        DirectMessageChannel {
            id: self.id.clone(),
            active: self.active,
            recipients: self.recipients.clone(),
            last_message_id: self.last_message_id.clone(),
        }
    }
}

/// A channel.
#[derive(Debug, PartialEq, Eq)]
pub enum Channel {
    /// A text channel.
    Text(TextChannel),
    /// A voice channel.
    Voice(VoiceChannel),
    /// A group channel.
    Group(GroupChannel),
    /// A DM channel.
    DirectMessage(DirectMessageChannel),
}

/// What a [`Channel`] holds, as mathematical values.
pub enum ChannelView {
    Text(TextChannelView),
    Voice(VoiceChannelView),
    Group(GroupChannelView),
    DirectMessage(DirectMessageChannelView),
}

impl DeepView for Channel {
    type V = ChannelView;

    open spec fn deep_view(&self) -> ChannelView {
        match self {
            Channel::Text(inner) => ChannelView::Text(inner.deep_view()),
            Channel::Voice(inner) => ChannelView::Voice(inner.deep_view()),
            Channel::Group(inner) => ChannelView::Group(inner.deep_view()),
            Channel::DirectMessage(inner) => ChannelView::DirectMessage(inner.deep_view()),
        }
    }
}

impl Clone for Channel {
    fn clone(&self) -> (r: Self)
        ensures
            r.deep_view() == self.deep_view(),
    {
        match self {
            Channel::Text(inner) => Channel::Text(inner.clone()),
            Channel::Voice(inner) => Channel::Voice(inner.clone()),
            Channel::Group(inner) => Channel::Group(inner.clone()),
            Channel::DirectMessage(inner) => Channel::DirectMessage(inner.clone()),
        }
    }
}

impl ChannelView {
    /// The channel's id.
    pub open spec fn id(self) -> Seq<char> {
        match self {
            ChannelView::Text(c) => c.id,
            ChannelView::Voice(c) => c.id,
            ChannelView::Group(c) => c.id,
            ChannelView::DirectMessage(c) => c.id,
        }
    }
}

impl Channel {
    /// Returns the channel id.
    pub fn id(&self) -> (id: &String)
        ensures
            id@ == self.deep_view().id(),
    {
        match self {
            Channel::Text(TextChannel { id, .. })
            | Channel::Voice(VoiceChannel { id, .. })
            | Channel::Group(GroupChannel { id, .. })
            | Channel::DirectMessage(DirectMessageChannel { id, .. }) => id,
        }
    }

    /// The text channel that this channel is, if it is one.
    pub fn get_text_channel(self) -> (r: Option<TextChannel>)
        ensures
            r == (match self {
                Channel::Text(channel) => Some(channel),
                _ => None,
            }),
    {
        if let Channel::Text(channel) = self {
            Some(channel)
        } else {
            None
        }
    }

    /// The voice channel that this channel is, if it is one.
    pub fn get_voice_channel(self) -> (r: Option<VoiceChannel>)
        ensures
            r == (match self {
                Channel::Voice(channel) => Some(channel),
                _ => None,
            }),
    {
        if let Channel::Voice(channel) = self {
            Some(channel)
        } else {
            None
        }
    }

    /// The group channel that this channel is, if it is one.
    pub fn get_group_channel(self) -> (r: Option<GroupChannel>)
        ensures
            r == (match self {
                Channel::Group(channel) => Some(channel),
                _ => None,
            }),
    {
        if let Channel::Group(channel) = self {
            Some(channel)
        } else {
            None
        }
    }

    /// The DM channel that this channel is, if it is one.
    pub fn get_dm_channel(self) -> (r: Option<DirectMessageChannel>)
        ensures
            r == (match self {
                Channel::DirectMessage(channel) => Some(channel),
                _ => None,
            }),
    {
        if let Channel::DirectMessage(channel) = self {
            Some(channel)
        } else {
            None
        }
    }
}

} // verus!
