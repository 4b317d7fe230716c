//! How each event received from the server changes the cache.

use vstd::prelude::*;
use crate::cache::Cache;
use crate::cache::lemmas::lemma_with_entries_step;
use crate::cache::model::{
    channel_entries_of, member_entries_of, server_entries_of, user_entries_of, with_entries,
    CacheView,
};
use crate::models::channel::Channel;
use crate::models::events::{
    ChannelDeleteEvent, ChannelField, ChannelGroupJoinEvent, ChannelGroupLeaveEvent,
    ChannelUpdateEvent, MemberField, ReadyEvent, ServerDeleteEvent, ServerEvent, ServerField,
    ServerMemberJoinEvent, ServerMemberLeaveEvent, ServerMemberUpdateEvent, ServerUpdateEvent,
    UserField, UserUpdateEvent,
};
use crate::models::message::Message;
use crate::models::server::{Member, MemberID, Server};
use crate::models::user::User;
use crate::sequences::first_index_of;

verus! {

impl UserUpdateEvent {
    /// The user that `user` becomes by this update.
    pub fn apply(&self, user: &User) -> (r: User)
        ensures
            r.deep_view() == user.deep_view().updated(*self),
    {
        let mut user = user.clone();
        if let Some(status) = &self.data.status {
            user.status = Some(status.clone());
        }
        if let Some(avatar) = &self.data.avatar {
            user.avatar = Some(avatar.clone());
        }
        if let Some(online) = self.data.online {
            user.online = online;
        }
        if let Some(field) = self.clear {
            match field {
                UserField::StatusText => {
                    if let Some(status) = user.status {
                        let mut status = status;
                        status.text = None;
                        user.status = Some(status);
                    }
                },
                UserField::Avatar => user.avatar = None,
                _ => {},
            }
        }
        user
    }

    /// Updates the stored user that this event is about. A user that is not
    /// stored stays unknown.
    pub fn update(&self, cache: &mut Cache)
        requires
            old(cache).wf(),
        ensures
            final(cache).wf(),
            final(cache)@ == old(cache)@.user_update(*self),
    {
        let updated = match cache.user_ref(&self.user_id) {
            Some(user) => Some(self.apply(user)),
            None => None,
        };
        if let Some(user) = updated {
            cache.put_user(user);
        }
    }
}

impl ServerUpdateEvent {
    /// The server that `server` becomes by this update.
    pub fn apply(&self, server: &Server) -> (r: Server)
        ensures
            r.deep_view() == server.deep_view().updated(*self),
    {
        let mut server = server.clone();
        if let Some(name) = &self.data.name {
            server.name = name.clone();
        }
        if let Some(description) = &self.data.description {
            server.description = Some(description.clone());
        }
        if let Some(icon) = &self.data.icon {
            server.icon = Some(icon.clone());
        }
        if let Some(banner) = &self.data.banner {
            server.banner = Some(banner.clone());
        }
        if self.data.categories.len() > 0 {
            server.categories = self.data.categories.clone();
        }
        if let Some(system_messages) = &self.data.system_messages {
            server.system_messages = system_messages.clone();
        }
        if let Some(nsfw) = self.data.nsfw {
            server.nsfw = nsfw;
        }
        if let Some(field) = self.clear {
            match field {
                ServerField::Icon => server.icon = None,
                ServerField::Banner => server.banner = None,
                ServerField::Description => server.description = None,
            }
        }
        server
    }

    /// Updates the stored server that this event is about. A server that is not
    /// stored stays unknown.
    pub fn update(&self, cache: &mut Cache)
        requires
            old(cache).wf(),
        ensures
            final(cache).wf(),
            final(cache)@ == old(cache)@.server_update(*self),
    {
        let updated = match cache.server_ref(&self.server_id) {
            Some(server) => Some(self.apply(server)),
            None => None,
        };
        if let Some(server) = updated {
            cache.put_server(server);
        }
    }
}

impl ServerDeleteEvent {
    /// Forgets the server that was deleted.
    pub fn update(&self, cache: &mut Cache)
        requires
            old(cache).wf(),
        ensures
            final(cache).wf(),
            final(cache)@ == old(cache)@.server_delete(*self),
    {
        cache.remove_server(&self.server_id);
    }
}

impl ServerMemberUpdateEvent {
    /// The member that `member` becomes by this update.
    pub fn apply(&self, member: &Member) -> (r: Member)
        ensures
            r.deep_view() == member.deep_view().updated(*self),
    {
        let mut member = member.clone();
        if let Some(nickname) = &self.data.nickname {
            member.nickname = Some(nickname.clone());
        }
        if let Some(avatar) = &self.data.avatar {
            member.avatar = Some(avatar.clone());
        }
        if self.data.roles.len() > 0 {
            member.roles = self.data.roles.clone();
        }
        if let Some(field) = self.clear {
            match field {
                MemberField::Nickname => member.nickname = None,
                MemberField::Avatar => member.avatar = None,
            }
        }
        member
    }

    /// Updates the stored member that this event is about. A member that is not
    /// stored stays unknown.
    pub fn update(&self, cache: &mut Cache)
        requires
            old(cache).wf(),
        ensures
            final(cache).wf(),
            final(cache)@ == old(cache)@.member_update(*self),
    {
        let updated = match cache.member_ref(&self.member_id) {
            Some(member) => Some(self.apply(member)),
            None => None,
        };
        if let Some(member) = updated {
            cache.put_member(member);
        }
    }
}

impl ServerMemberJoinEvent {
    /// Stores the member that joined, once it was fetched. `fetched` is what
    /// looking the member up gave; where that failed, nothing changes.
    pub fn update(&self, cache: &mut Cache, fetched: Option<Member>)
        requires
            old(cache).wf(),
        ensures
            final(cache).wf(),
            final(cache)@ == (match fetched {
                Some(member) => old(cache)@.member_join(member),
                None => old(cache)@,
            }),
    {
        if let Some(member) = fetched {
            cache.put_member(member);
        }
    }
}

impl ServerMemberLeaveEvent {
    /// Forgets the member that left.
    pub fn update(&self, cache: &mut Cache)
        requires
            old(cache).wf(),
        ensures
            final(cache).wf(),
            final(cache)@ == old(cache)@.member_leave(*self),
    {
        let id = MemberID { server_id: self.server_id.clone(), user_id: self.user_id.clone() };
        cache.remove_member(&id);
    }
}

impl Channel {
    /// Stores this channel, which was just created, under its id.
    pub fn update(&self, cache: &mut Cache)
        requires
            old(cache).wf(),
        ensures
            final(cache).wf(),
            final(cache)@ == old(cache)@.channel_create(*self),
    {
        cache.put_channel(self.clone());
    }
}

impl ChannelUpdateEvent {
    /// The description that `description` becomes by this update.
    fn apply_description(&self, description: &Option<String>) -> (r: Option<String>)
        ensures
            r.deep_view() == crate::cache::model::updated_description(
                description.deep_view(),
                *self,
            ),
    {
        match self.clear {
            Some(ChannelField::Description) => None,
            _ => match &self.data.description {
                Some(new_description) => Some(new_description.clone()),
                None => description.clone(),
            },
        }
    }

    /// The icon that `icon` becomes by this update.
    fn apply_icon(&self, icon: &Option<crate::models::attachment::Attachment>) -> (r: Option<
        crate::models::attachment::Attachment,
    >)
        ensures
            r.deep_view() == crate::cache::model::updated_icon(icon.deep_view(), *self),
    {
        match self.clear {
            Some(ChannelField::Icon) => None,
            _ => match &self.data.icon {
                Some(new_icon) => Some(new_icon.clone()),
                None => icon.clone(),
            },
        }
    }

    /// The channel that `channel` becomes by this update.
    pub fn apply(&self, channel: &Channel) -> (r: Channel)
        ensures
            r.deep_view() == channel.deep_view().updated(*self),
    {
        match channel {
            Channel::Text(c) => {
                let mut c = c.clone();
                if let Some(name) = &self.data.name {
                    c.name = name.clone();
                }
                c.description = self.apply_description(&c.description);
                c.icon = self.apply_icon(&c.icon);
                if let Some(nsfw) = self.data.nsfw {
                    c.nsfw = nsfw;
                }
                Channel::Text(c)
            },
            Channel::Voice(c) => {
                let mut c = c.clone();
                if let Some(name) = &self.data.name {
                    c.name = name.clone();
                }
                c.description = self.apply_description(&c.description);
                c.icon = self.apply_icon(&c.icon);
                if let Some(nsfw) = self.data.nsfw {
                    c.nsfw = nsfw;
                }
                Channel::Voice(c)
            },
            Channel::Group(c) => {
                let mut c = c.clone();
                if let Some(name) = &self.data.name {
                    c.name = name.clone();
                }
                c.description = self.apply_description(&c.description);
                c.icon = self.apply_icon(&c.icon);
                if let Some(nsfw) = self.data.nsfw {
                    c.nsfw = nsfw;
                }
                Channel::Group(c)
            },
            Channel::DirectMessage(c) => Channel::DirectMessage(c.clone()),
        }
    }

    /// Updates the stored channel that this event is about. A channel that is
    /// not stored stays unknown.
    pub fn update(&self, cache: &mut Cache)
        requires
            old(cache).wf(),
        ensures
            final(cache).wf(),
            final(cache)@ == old(cache)@.channel_update(*self),
    {
        let updated = match cache.channel_ref(&self.channel_id) {
            Some(channel) => Some(self.apply(channel)),
            None => None,
        };
        if let Some(channel) = updated {
            cache.put_channel(channel);
        }
    }
}

impl ChannelDeleteEvent {
    /// Forgets the channel that was deleted.
    pub fn update(&self, cache: &mut Cache)
        requires
            old(cache).wf(),
        ensures
            final(cache).wf(),
            final(cache)@ == old(cache)@.channel_delete(*self),
    {
        cache.remove_channel(&self.channel_id);
    }
}

impl Message {
    /// The channel that `channel` becomes when this message is sent in it.
    pub fn apply(&self, channel: &Channel) -> (r: Channel)
        ensures
            r.deep_view() == channel.deep_view().with_last_message(self.id@),
    {
        match channel {
            Channel::Text(c) => {
                let mut c = c.clone();
                c.last_message_id = Some(self.id.clone());
                Channel::Text(c)
            },
            Channel::Group(c) => {
                let mut c = c.clone();
                c.last_message_id = Some(self.id.clone());
                Channel::Group(c)
            },
            Channel::DirectMessage(c) => {
                let mut c = c.clone();
                c.last_message_id = Some(self.id.clone());
                Channel::DirectMessage(c)
            },
            Channel::Voice(c) => Channel::Voice(c.clone()),
        }
    }

    /// Makes this message the last message of the stored channel it was sent in.
    pub fn update(&self, cache: &mut Cache)
        requires
            old(cache).wf(),
        ensures
            final(cache).wf(),
            final(cache)@ == old(cache)@.message(*self),
    {
        let updated = match cache.channel_ref(&self.channel_id) {
            Some(channel) => Some(self.apply(channel)),
            None => None,
        };
        if let Some(channel) = updated {
            cache.put_channel(channel);
        }
    }
}

impl ChannelGroupJoinEvent {
    /// The channel that `channel` becomes when the user joins it.
    pub fn apply(&self, channel: &Channel) -> (r: Channel)
        ensures
            r.deep_view() == channel.deep_view().with_recipient(self.user_id@),
    {
        match channel {
            Channel::Group(group) => {
                let mut group = group.clone();
                let ghost before = group.recipients.deep_view();
                group.recipients.push(self.user_id.clone());
                assert(group.recipients.deep_view() =~= before.push(self.user_id@));
                Channel::Group(group)
            },
            _ => channel.clone(),
        }
    }

    /// Adds the user to the recipients of the stored group that it joined.
    pub fn update(&self, cache: &mut Cache)
        requires
            old(cache).wf(),
        ensures
            final(cache).wf(),
            final(cache)@ == old(cache)@.group_join(*self),
    {
        let updated = match cache.channel_ref(&self.channel_id) {
            Some(channel) => Some(self.apply(channel)),
            None => None,
        };
        if let Some(channel) = updated {
            cache.put_channel(channel);
        }
    }
}

/// The position of the first id in `ids` that equals `id`.
pub fn position(ids: &Vec<String>, id: &String) -> (r: Option<usize>)
    ensures
        (match r {
            Some(i) => i < ids@.len() && i == first_index_of(ids.deep_view(), id@),
            None => first_index_of(ids.deep_view(), id@) == ids@.len(),
        }),
{
    let mut i: usize = 0;
    assert(ids.deep_view().skip(0) =~= ids.deep_view());
    while i < ids.len()
        invariant
            i <= ids@.len(),
            first_index_of(ids.deep_view(), id@) == i + first_index_of(
                ids.deep_view().skip(i as int),
                id@,
            ),
        decreases ids@.len() - i,
    {
        proof {
            let rest = ids.deep_view().skip(i as int);
            assert(rest[0] == ids@[i as int]@);
            assert(rest.drop_first() =~= ids.deep_view().skip(i + 1));
        }
        if ids[i] == *id {
            return Some(i);
        }
        i += 1;
    }
    proof {
        assert(ids.deep_view().skip(i as int).len() == 0);
    }
    None
}

impl ChannelGroupLeaveEvent {
    /// The channel that `channel` becomes when the user leaves it.
    pub fn apply(&self, channel: &Channel) -> (r: Channel)
        ensures
            r.deep_view() == channel.deep_view().without_recipient(self.user_id@),
    {
        match channel {
            Channel::Group(group) => {
                let mut group = group.clone();
                let ghost before = group.recipients.deep_view();
                if let Some(index) = position(&group.recipients, &self.user_id) {
                    group.recipients.remove(index);
                    assert(group.recipients.deep_view() =~= before.remove(index as int));
                }
                Channel::Group(group)
            },
            _ => channel.clone(),
        }
    }

    /// Takes the user off the recipients of the stored group that it left.
    pub fn update(&self, cache: &mut Cache)
        requires
            old(cache).wf(),
        ensures
            final(cache).wf(),
            final(cache)@ == old(cache)@.group_leave(*self),
    {
        let updated = match cache.channel_ref(&self.channel_id) {
            Some(channel) => Some(self.apply(channel)),
            None => None,
        };
        if let Some(channel) = updated {
            cache.put_channel(channel);
        }
    }
}

impl ReadyEvent {
    /// Stores every user, channel, server and member of the snapshot under its id.
    pub fn update(&self, cache: &mut Cache)
        requires
            old(cache).wf(),
        ensures
            final(cache).wf(),
            final(cache)@ == old(cache)@.ready(*self),
    {
        let ghost start = cache@;
        let ghost users = user_entries_of(self.users.deep_view());
        let mut i: usize = 0;
        while i < self.users.len()
            invariant
                i <= self.users@.len(),
                cache.wf(),
                users == user_entries_of(self.users.deep_view()),
                cache@ == (CacheView {
                    users: with_entries(start.users, users.take(i as int)),
                    ..start
                }),
            decreases self.users@.len() - i,
        {
            proof {
                lemma_with_entries_step(start.users, users, i as int);
            }
            cache.put_user(self.users[i].clone());
            i += 1;
        }
        assert(users.take(i as int) =~= users);

        let ghost filled = cache@;
        let ghost channels = channel_entries_of(self.channels.deep_view());
        let mut i: usize = 0;
        while i < self.channels.len()
            invariant
                i <= self.channels@.len(),
                cache.wf(),
                channels == channel_entries_of(self.channels.deep_view()),
                cache@ == (CacheView {
                    channels: with_entries(start.channels, channels.take(i as int)),
                    ..filled
                }),
            decreases self.channels@.len() - i,
        {
            proof {
                lemma_with_entries_step(start.channels, channels, i as int);
            }
            cache.put_channel(self.channels[i].clone());
            i += 1;
        }
        assert(channels.take(i as int) =~= channels);

        let ghost filled = cache@;
        let ghost servers = server_entries_of(self.servers.deep_view());
        let mut i: usize = 0;
        while i < self.servers.len()
            invariant
                i <= self.servers@.len(),
                cache.wf(),
                servers == server_entries_of(self.servers.deep_view()),
                cache@ == (CacheView {
                    servers: with_entries(start.servers, servers.take(i as int)),
                    ..filled
                }),
            decreases self.servers@.len() - i,
        {
            proof {
                lemma_with_entries_step(start.servers, servers, i as int);
            }
            cache.put_server(self.servers[i].clone());
            i += 1;
        }
        assert(servers.take(i as int) =~= servers);

        let ghost filled = cache@;
        let ghost members = member_entries_of(self.members.deep_view());
        let mut i: usize = 0;
        while i < self.members.len()
            invariant
                i <= self.members@.len(),
                cache.wf(),
                members == member_entries_of(self.members.deep_view()),
                cache@ == (CacheView {
                    members: with_entries(start.members, members.take(i as int)),
                    ..filled
                }),
            decreases self.members@.len() - i,
        {
            proof {
                lemma_with_entries_step(start.members, members, i as int);
            }
            cache.put_member(self.members[i].clone());
            i += 1;
        }
        assert(members.take(i as int) =~= members);
    }
}

impl Cache {
    /// Brings the cache up to date with an event received from the server.
    ///
    /// A user that joins a server is not part of the event, only its id is.
    /// Where that member is not stored yet, its id is returned: the caller
    /// fetches the member and hands it to [`ServerMemberJoinEvent::update`].
    pub fn update(&mut self, event: &ServerEvent) -> (fetch: Option<MemberID>)
        requires
            old(self).wf(),
        ensures
            final(self).wf(),
            final(self)@ == old(self)@.update(*event),
            fetch.deep_view() == old(self)@.member_to_fetch(*event),
    {
        match event {
            ServerEvent::Ready(event) => {
                event.update(self);
                None
            },
            ServerEvent::Message(message) => {
                message.update(self);
                None
            },
            ServerEvent::ChannelCreate(channel) => {
                channel.update(self);
                None
            },
            ServerEvent::ChannelUpdate(event) => {
                event.update(self);
                None
            },
            ServerEvent::ChannelDelete(event) => {
                event.update(self);
                None
            },
            ServerEvent::ChannelGroupJoin(event) => {
                event.update(self);
                None
            },
            ServerEvent::ChannelGroupLeave(event) => {
                event.update(self);
                None
            },
            ServerEvent::ServerUpdate(event) => {
                event.update(self);
                None
            },
            ServerEvent::ServerDelete(event) => {
                event.update(self);
                None
            },
            ServerEvent::ServerMemberUpdate(event) => {
                event.update(self);
                None
            },
            ServerEvent::ServerMemberJoin(event) => {
                let id = MemberID {
                    server_id: event.server_id.clone(),
                    user_id: event.user_id.clone(),
                };
                if self.member_ref(&id).is_none() {
                    Some(id)
                } else {
                    None
                }
            },
            ServerEvent::ServerMemberLeave(event) => {
                event.update(self);
                None
            },
            ServerEvent::UserUpdate(event) => {
                event.update(self);
                None
            },
            _ => None,
        }
    }
}

} // verus!
