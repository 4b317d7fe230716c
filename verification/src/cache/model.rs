//! The mathematical model of the cache: its state as four maps, and the
//! state that each event received from the server leads to.

use vstd::prelude::*;
use crate::models::channel::{
    Channel, ChannelView, DirectMessageChannelView, GroupChannelView, TextChannelView,
    VoiceChannelView,
};
use crate::models::events::{
    ChannelDeleteEvent, ChannelField, ChannelGroupJoinEvent, ChannelGroupLeaveEvent,
    ChannelUpdateEvent, MemberField, ReadyEvent, ServerDeleteEvent, ServerEvent, ServerField,
    ServerMemberLeaveEvent, ServerMemberUpdateEvent, ServerUpdateEvent, UserField,
    UserUpdateEvent,
};
use crate::models::message::Message;
use crate::sequences::without_first;
use crate::models::server::{Member, MemberIDView, MemberView, ServerView};
use crate::models::user::{UserStatusView, UserView};

verus! {

/// What a cache holds: for each kind of entity, the entities by their id.
pub struct CacheView {
    pub users: Map<Seq<char>, UserView>,
    pub channels: Map<Seq<char>, ChannelView>,
    pub servers: Map<Seq<char>, ServerView>,
    pub members: Map<MemberIDView, MemberView>,
}

/// `m` after inserting the entries of `entries` one by one, first to last.
/// Where a key occurs more than once, its last entry stays.
pub open spec fn with_entries<K, V>(m: Map<K, V>, entries: Seq<(K, V)>) -> Map<K, V>
    decreases entries.len(),
{
    if entries.len() == 0 {
        m
    } else {
        with_entries(m, entries.drop_last()).insert(entries.last().0, entries.last().1)
    }
}

/// The users of a snapshot, each under its id.
pub open spec fn user_entries_of(users: Seq<UserView>) -> Seq<(Seq<char>, UserView)> {
    users.map_values(|u: UserView| (u.id, u))
}

/// The channels of a snapshot, each under its id.
pub open spec fn channel_entries_of(channels: Seq<ChannelView>) -> Seq<(Seq<char>, ChannelView)> {
    channels.map_values(|c: ChannelView| (c.id(), c))
}

/// The servers of a snapshot, each under its id.
pub open spec fn server_entries_of(servers: Seq<ServerView>) -> Seq<(Seq<char>, ServerView)> {
    servers.map_values(|s: ServerView| (s.id, s))
}

/// The members of a snapshot, each under its id.
pub open spec fn member_entries_of(members: Seq<MemberView>) -> Seq<(MemberIDView, MemberView)> {
    members.map_values(|m: MemberView| (m.id, m))
}

impl ChannelView {
    /// The channel after a message with id `message_id` was sent in it. Voice
    /// channels keep no last message.
    pub open spec fn with_last_message(self, message_id: Seq<char>) -> ChannelView {
        match self {
            ChannelView::Text(c) => ChannelView::Text(
                TextChannelView { last_message_id: Some(message_id), ..c },
            ),
            ChannelView::Voice(c) => self,
            ChannelView::Group(c) => ChannelView::Group(
                GroupChannelView { last_message_id: Some(message_id), ..c },
            ),
            ChannelView::DirectMessage(c) => ChannelView::DirectMessage(
                DirectMessageChannelView { last_message_id: Some(message_id), ..c },
            ),
        }
    }

    /// The channel after user `user_id` joined it: a group gains a recipient at
    /// the end of its list, any other channel is unchanged.
    pub open spec fn with_recipient(self, user_id: Seq<char>) -> ChannelView {
        match self {
            ChannelView::Group(c) => ChannelView::Group(
                GroupChannelView { recipients: c.recipients.push(user_id), ..c },
            ),
            _ => self,
        }
    }

    /// The channel after user `user_id` left it: a group loses the first
    /// occurrence of the user in its list, any other channel is unchanged.
    pub open spec fn without_recipient(self, user_id: Seq<char>) -> ChannelView {
        match self {
            ChannelView::Group(c) => ChannelView::Group(
                GroupChannelView { recipients: without_first(c.recipients, user_id), ..c },
            ),
            _ => self,
        }
    }

    /// The channel after an update. A field that the update clears is absent,
    /// whatever else the update carries. Apart from that each field that the
    /// update carries takes the update's value. Every other field stays. A
    /// direct message channel has none of the fields an update can name and
    /// stays as it is.
    pub open spec fn updated(self, event: ChannelUpdateEvent) -> ChannelView {
        match self {
            ChannelView::Text(c) => ChannelView::Text(
                TextChannelView {
                    name: updated_name(c.name, event),
                    description: updated_description(c.description, event),
                    icon: updated_icon(c.icon, event),
                    nsfw: updated_nsfw(c.nsfw, event),
                    ..c
                },
            ),
            ChannelView::Voice(c) => ChannelView::Voice(
                VoiceChannelView {
                    name: updated_name(c.name, event),
                    description: updated_description(c.description, event),
                    icon: updated_icon(c.icon, event),
                    nsfw: updated_nsfw(c.nsfw, event),
                    ..c
                },
            ),
            ChannelView::Group(c) => ChannelView::Group(
                GroupChannelView {
                    name: updated_name(c.name, event),
                    description: updated_description(c.description, event),
                    icon: updated_icon(c.icon, event),
                    nsfw: updated_nsfw(c.nsfw, event),
                    ..c
                },
            ),
            ChannelView::DirectMessage(c) => self,
        }
    }
}

/// A channel's name after an update.
pub open spec fn updated_name(name: Seq<char>, event: ChannelUpdateEvent) -> Seq<char> {
    match event.data.name {
        Some(new_name) => new_name@,
        None => name,
    }
}

/// A channel's description after an update.
pub open spec fn updated_description(
    description: Option<Seq<char>>,
    event: ChannelUpdateEvent,
) -> Option<Seq<char>> {
    if event.clear == Some(ChannelField::Description) {
        None
    } else if event.data.description is Some {
        event.data.description.deep_view()
    } else {
        description
    }
}

/// A channel's icon after an update.
pub open spec fn updated_icon(
    icon: Option<crate::models::attachment::AttachmentView>,
    event: ChannelUpdateEvent,
) -> Option<crate::models::attachment::AttachmentView> {
    if event.clear == Some(ChannelField::Icon) {
        None
    } else if event.data.icon is Some {
        event.data.icon.deep_view()
    } else {
        icon
    }
}

/// Whether a channel is not safe for work after an update.
pub open spec fn updated_nsfw(nsfw: bool, event: ChannelUpdateEvent) -> bool {
    match event.data.nsfw {
        Some(new_nsfw) => new_nsfw,
        None => nsfw,
    }
}

impl UserView {
    /// The status of the user once an update's status is taken: the status it
    /// carries, or the one the user had where it carries none.
    pub open spec fn carried_status(self, event: UserUpdateEvent) -> Option<UserStatusView> {
        if event.data.status is Some {
            event.data.status.deep_view()
        } else {
            self.status
        }
    }

    /// The user after an update. What the update clears is absent afterwards,
    /// whatever else it carries: a cleared avatar is absent, and a cleared
    /// status text leaves the status, carried or kept, without text. Apart
    /// from that the status, the avatar and the online flag take the update's
    /// value where it carries one. Every other field stays.
    pub open spec fn updated(self, event: UserUpdateEvent) -> UserView {
        UserView {
            status: if event.clear == Some(UserField::StatusText) {
                match self.carried_status(event) {
                    Some(status) => Some(UserStatusView { text: None, ..status }),
                    None => None,
                }
            } else {
                self.carried_status(event)
            },
            avatar: if event.clear == Some(UserField::Avatar) {
                None
            } else if event.data.avatar is Some {
                event.data.avatar.deep_view()
            } else {
                self.avatar
            },
            online: match event.data.online {
                Some(online) => online,
                None => self.online,
            },
            ..self
        }
    }
}

impl ServerView {
    /// The server after an update. The icon, the banner or the description is
    /// absent where the update clears it, whatever else it carries. Apart from
    /// that each field that the update carries takes the update's value; a
    /// list of categories is carried when it is not empty. Every other field
    /// stays.
    pub open spec fn updated(self, event: ServerUpdateEvent) -> ServerView {
        ServerView {
            name: match event.data.name {
                Some(name) => name@,
                None => self.name,
            },
            description: if event.clear == Some(ServerField::Description) {
                None
            } else if event.data.description is Some {
                event.data.description.deep_view()
            } else {
                self.description
            },
            icon: if event.clear == Some(ServerField::Icon) {
                None
            } else if event.data.icon is Some {
                event.data.icon.deep_view()
            } else {
                self.icon
            },
            banner: if event.clear == Some(ServerField::Banner) {
                None
            } else if event.data.banner is Some {
                event.data.banner.deep_view()
            } else {
                self.banner
            },
            categories: if event.data.categories@.len() > 0 {
                event.data.categories.deep_view()
            } else {
                self.categories
            },
            system_messages: match event.data.system_messages {
                Some(system_messages) => system_messages.deep_view(),
                None => self.system_messages,
            },
            nsfw: match event.data.nsfw {
                Some(nsfw) => nsfw,
                None => self.nsfw,
            },
            ..self
        }
    }
}

impl MemberView {
    /// The member after an update. The nickname or the avatar is absent where
    /// the update clears it, whatever else it carries. Apart from that they
    /// take the update's value where it carries one. The roles take the
    /// update's list when that is not empty. The id stays.
    pub open spec fn updated(self, event: ServerMemberUpdateEvent) -> MemberView {
        MemberView {
            nickname: if event.clear == Some(MemberField::Nickname) {
                None
            } else if event.data.nickname is Some {
                event.data.nickname.deep_view()
            } else {
                self.nickname
            },
            avatar: if event.clear == Some(MemberField::Avatar) {
                None
            } else if event.data.avatar is Some {
                event.data.avatar.deep_view()
            } else {
                self.avatar
            },
            roles: if event.data.roles@.len() > 0 {
                event.data.roles.deep_view()
            } else {
                self.roles
            },
            ..self
        }
    }
}

/// Whether a map of users is finite and holds each user under its own id.
pub open spec fn users_wf(users: Map<Seq<char>, UserView>) -> bool {
    &&& users.dom().finite()
    &&& forall|id: Seq<char>| #[trigger] users.contains_key(id) ==> users[id].id == id
}

/// Whether a map of channels is finite and holds each channel under its own id.
pub open spec fn channels_wf(channels: Map<Seq<char>, ChannelView>) -> bool {
    &&& channels.dom().finite()
    &&& forall|id: Seq<char>| #[trigger] channels.contains_key(id) ==> channels[id].id() == id
}

/// Whether a map of servers is finite and holds each server under its own id.
pub open spec fn servers_wf(servers: Map<Seq<char>, ServerView>) -> bool {
    &&& servers.dom().finite()
    &&& forall|id: Seq<char>| #[trigger] servers.contains_key(id) ==> servers[id].id == id
}

/// Whether a map of members is finite and holds each member under its own id.
pub open spec fn members_wf(members: Map<MemberIDView, MemberView>) -> bool {
    &&& members.dom().finite()
    &&& forall|id: MemberIDView| #[trigger] members.contains_key(id) ==> members[id].id == id
}

impl CacheView {
    /// The cache that holds nothing.
    pub open spec fn empty() -> CacheView {
        CacheView {
            users: Map::empty(),
            channels: Map::empty(),
            servers: Map::empty(),
            members: Map::empty(),
        }
    }

    /// Each map is finite and keyed by the id of the entity it stores.
    pub open spec fn wf(self) -> bool {
        &&& users_wf(self.users)
        &&& channels_wf(self.channels)
        &&& servers_wf(self.servers)
        &&& members_wf(self.members)
    }

    /// After a snapshot: every entity of the snapshot is stored under its id.
    pub open spec fn ready(self, event: ReadyEvent) -> CacheView {
        CacheView {
            users: with_entries(self.users, user_entries_of(event.users.deep_view())),
            channels: with_entries(self.channels, channel_entries_of(event.channels.deep_view())),
            servers: with_entries(self.servers, server_entries_of(event.servers.deep_view())),
            members: with_entries(self.members, member_entries_of(event.members.deep_view())),
        }
    }

    /// After a message: the channel it was sent in, if stored, points to it as
    /// its last message.
    pub open spec fn message(self, message: Message) -> CacheView {
        if self.channels.contains_key(message.channel_id@) {
            CacheView {
                channels: self.channels.insert(
                    message.channel_id@,
                    self.channels[message.channel_id@].with_last_message(message.id@),
                ),
                ..self
            }
        } else {
            self
        }
    }

    /// After a channel was created: it is stored under its id.
    pub open spec fn channel_create(self, channel: Channel) -> CacheView {
        CacheView {
            channels: self.channels.insert(channel.deep_view().id(), channel.deep_view()),
            ..self
        }
    }

    /// After a channel update: the channel, if stored, is updated.
    pub open spec fn channel_update(self, event: ChannelUpdateEvent) -> CacheView {
        if self.channels.contains_key(event.channel_id@) {
            CacheView {
                channels: self.channels.insert(
                    event.channel_id@,
                    self.channels[event.channel_id@].updated(event),
                ),
                ..self
            }
        } else {
            self
        }
    }

    /// After a channel was deleted: it is no longer stored.
    pub open spec fn channel_delete(self, event: ChannelDeleteEvent) -> CacheView {
        CacheView { channels: self.channels.remove(event.channel_id@), ..self }
    }

    /// After a user joined a group: the group, if stored, lists the user.
    pub open spec fn group_join(self, event: ChannelGroupJoinEvent) -> CacheView {
        if self.channels.contains_key(event.channel_id@) {
            CacheView {
                channels: self.channels.insert(
                    event.channel_id@,
                    self.channels[event.channel_id@].with_recipient(event.user_id@),
                ),
                ..self
            }
        } else {
            self
        }
    }

    /// After a user left a group: the group, if stored, lists the user once less.
    pub open spec fn group_leave(self, event: ChannelGroupLeaveEvent) -> CacheView {
        if self.channels.contains_key(event.channel_id@) {
            CacheView {
                channels: self.channels.insert(
                    event.channel_id@,
                    self.channels[event.channel_id@].without_recipient(event.user_id@),
                ),
                ..self
            }
        } else {
            self
        }
    }

    /// After a server update: the server, if stored, is updated.
    pub open spec fn server_update(self, event: ServerUpdateEvent) -> CacheView {
        if self.servers.contains_key(event.server_id@) {
            CacheView {
                servers: self.servers.insert(
                    event.server_id@,
                    self.servers[event.server_id@].updated(event),
                ),
                ..self
            }
        } else {
            self
        }
    }

    /// After a server was deleted: it is no longer stored.
    pub open spec fn server_delete(self, event: ServerDeleteEvent) -> CacheView {
        CacheView { servers: self.servers.remove(event.server_id@), ..self }
    }

    /// After a member update: the member, if stored, is updated.
    pub open spec fn member_update(self, event: ServerMemberUpdateEvent) -> CacheView {
        if self.members.contains_key(event.member_id.deep_view()) {
            CacheView {
                members: self.members.insert(
                    event.member_id.deep_view(),
                    self.members[event.member_id.deep_view()].updated(event),
                ),
                ..self
            }
        } else {
            self
        }
    }

    /// After a user joined a server and the member was fetched: the member is
    /// stored under its id.
    pub open spec fn member_join(self, member: Member) -> CacheView {
        CacheView {
            members: self.members.insert(member.id.deep_view(), member.deep_view()),
            ..self
        }
    }

    /// After a user left a server: the member is no longer stored.
    pub open spec fn member_leave(self, event: ServerMemberLeaveEvent) -> CacheView {
        CacheView {
            members: self.members.remove(
                MemberIDView { server_id: event.server_id@, user_id: event.user_id@ },
            ),
            ..self
        }
    }

    /// After a user update: the user, if stored, is updated.
    pub open spec fn user_update(self, event: UserUpdateEvent) -> CacheView {
        if self.users.contains_key(event.user_id@) {
            CacheView {
                users: self.users.insert(event.user_id@, self.users[event.user_id@].updated(event)),
                ..self
            }
        } else {
            self
        }
    }

    /// The cache after an event received from the server. A user that joins a
    /// server changes nothing by itself: the member is stored once it was
    /// fetched (see [`CacheView::member_join`]). Events that speak of nothing
    /// the cache stores leave it as it is.
    pub open spec fn update(self, event: ServerEvent) -> CacheView {
        match event {
            ServerEvent::Ready(event) => self.ready(event),
            ServerEvent::Message(message) => self.message(message),
            ServerEvent::ChannelCreate(channel) => self.channel_create(channel),
            ServerEvent::ChannelUpdate(event) => self.channel_update(event),
            ServerEvent::ChannelDelete(event) => self.channel_delete(event),
            ServerEvent::ChannelGroupJoin(event) => self.group_join(event),
            ServerEvent::ChannelGroupLeave(event) => self.group_leave(event),
            ServerEvent::ServerUpdate(event) => self.server_update(event),
            ServerEvent::ServerDelete(event) => self.server_delete(event),
            ServerEvent::ServerMemberUpdate(event) => self.member_update(event),
            ServerEvent::ServerMemberLeave(event) => self.member_leave(event),
            ServerEvent::UserUpdate(event) => self.user_update(event),
            _ => self,
        }
    }

    /// The member that has to be fetched after an event: the one that joined a
    /// server, where the cache does not hold it yet.
    pub open spec fn member_to_fetch(self, event: ServerEvent) -> Option<MemberIDView> {
        match event {
            ServerEvent::ServerMemberJoin(event) => {
                let id = MemberIDView { server_id: event.server_id@, user_id: event.user_id@ };
                if self.members.contains_key(id) {
                    None
                } else {
                    Some(id)
                }
            },
            _ => None,
        }
    }
}

} // verus!
