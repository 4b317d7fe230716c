//! What holds of the cache whatever the events are.

use vstd::prelude::*;
use crate::cache::lemmas::{
    distinct_keys, has_key, is_last_with_key, lemma_with_entries_dom, lemma_with_entries_keyed,
    lemma_with_entries_last, lemma_with_entries_len, lemma_with_entries_twice,
};
use crate::cache::model::{
    channel_entries_of, member_entries_of, server_entries_of, user_entries_of, CacheView,
};
use crate::models::channel::{ChannelView, GroupChannelView, TextChannelView, VoiceChannelView};
use crate::models::events::{
    ChannelField, ChannelUpdateEvent, MemberField, ReadyEvent, ServerEvent, ServerField,
    ServerMemberUpdateEvent, ServerUpdateEvent, UserField, UserUpdateEvent,
};
use crate::models::server::{Member, MemberView, ServerView};
use crate::models::user::UserView;

verus! {

/// Whatever event is applied, each map of the cache stays finite and keyed by
/// the id of the entity it stores. So does it when a member that was fetched
/// is stored.
pub proof fn lemma_update_keeps_wf(cache: CacheView, event: ServerEvent, member: Member)
    requires
        cache.wf(),
    ensures
        cache.update(event).wf(),
        cache.member_join(member).wf(),
{
    match event {
        ServerEvent::Ready(e) => {
            let users = user_entries_of(e.users.deep_view());
            let channels = channel_entries_of(e.channels.deep_view());
            let servers = server_entries_of(e.servers.deep_view());
            let members = member_entries_of(e.members.deep_view());
            lemma_with_entries_keyed(cache.users, users, |u: UserView| u.id);
            lemma_with_entries_keyed(cache.channels, channels, |c: ChannelView| c.id());
            lemma_with_entries_keyed(cache.servers, servers, |s: ServerView| s.id);
            lemma_with_entries_keyed(cache.members, members, |m: MemberView| m.id);
        },
        _ => {},
    }
}

/// After a snapshot, each of its users, channels, servers and members can be
/// looked up by its id. What is found is the entity itself, unless the
/// snapshot lists another entity with the same id after it.
pub proof fn lemma_ready_stores_snapshot(cache: CacheView, event: ReadyEvent)
    ensures
        forall|i: int|
            is_last_with_key(user_entries_of(event.users.deep_view()), i) ==> cache.ready(
                event,
            ).users.contains_pair(
                (#[trigger] event.users.deep_view()[i]).id,
                event.users.deep_view()[i],
            ),
        forall|i: int|
            is_last_with_key(channel_entries_of(event.channels.deep_view()), i) ==> cache.ready(
                event,
            ).channels.contains_pair(
                (#[trigger] event.channels.deep_view()[i]).id(),
                event.channels.deep_view()[i],
            ),
        forall|i: int|
            is_last_with_key(server_entries_of(event.servers.deep_view()), i) ==> cache.ready(
                event,
            ).servers.contains_pair(
                (#[trigger] event.servers.deep_view()[i]).id,
                event.servers.deep_view()[i],
            ),
        forall|i: int|
            is_last_with_key(member_entries_of(event.members.deep_view()), i) ==> cache.ready(
                event,
            ).members.contains_pair(
                (#[trigger] event.members.deep_view()[i]).id,
                event.members.deep_view()[i],
            ),
        forall|i: int|
            0 <= i < event.users@.len() ==> cache.ready(event).users.contains_key(
                (#[trigger] event.users.deep_view()[i]).id,
            ),
        forall|i: int|
            0 <= i < event.channels@.len() ==> cache.ready(event).channels.contains_key(
                (#[trigger] event.channels.deep_view()[i]).id(),
            ),
        forall|i: int|
            0 <= i < event.servers@.len() ==> cache.ready(event).servers.contains_key(
                (#[trigger] event.servers.deep_view()[i]).id,
            ),
        forall|i: int|
            0 <= i < event.members@.len() ==> cache.ready(event).members.contains_key(
                (#[trigger] event.members.deep_view()[i]).id,
            ),
{
    let users = user_entries_of(event.users.deep_view());
    let channels = channel_entries_of(event.channels.deep_view());
    let servers = server_entries_of(event.servers.deep_view());
    let members = member_entries_of(event.members.deep_view());
    lemma_with_entries_dom(cache.users, users);
    lemma_with_entries_dom(cache.channels, channels);
    lemma_with_entries_dom(cache.servers, servers);
    lemma_with_entries_dom(cache.members, members);
    assert forall|i: int| is_last_with_key(users, i) implies cache.ready(
        event,
    ).users.contains_pair(
        (#[trigger] event.users.deep_view()[i]).id,
        event.users.deep_view()[i],
    ) by {
        lemma_with_entries_last(cache.users, users, i);
    }
    assert forall|i: int| is_last_with_key(channels, i) implies cache.ready(
        event,
    ).channels.contains_pair(
        (#[trigger] event.channels.deep_view()[i]).id(),
        event.channels.deep_view()[i],
    ) by {
        lemma_with_entries_last(cache.channels, channels, i);
    }
    assert forall|i: int| is_last_with_key(servers, i) implies cache.ready(
        event,
    ).servers.contains_pair(
        (#[trigger] event.servers.deep_view()[i]).id,
        event.servers.deep_view()[i],
    ) by {
        lemma_with_entries_last(cache.servers, servers, i);
    }
    assert forall|i: int| is_last_with_key(members, i) implies cache.ready(
        event,
    ).members.contains_pair(
        (#[trigger] event.members.deep_view()[i]).id,
        event.members.deep_view()[i],
    ) by {
        lemma_with_entries_last(cache.members, members, i);
    }
    assert forall|i: int| 0 <= i < event.users@.len() implies cache.ready(
        event,
    ).users.contains_key((#[trigger] event.users.deep_view()[i]).id) by {
        assert(users[i].0 == event.users.deep_view()[i].id);
    }
    assert forall|i: int| 0 <= i < event.channels@.len() implies cache.ready(
        event,
    ).channels.contains_key((#[trigger] event.channels.deep_view()[i]).id()) by {
        assert(channels[i].0 == event.channels.deep_view()[i].id());
    }
    assert forall|i: int| 0 <= i < event.servers@.len() implies cache.ready(
        event,
    ).servers.contains_key((#[trigger] event.servers.deep_view()[i]).id) by {
        assert(servers[i].0 == event.servers.deep_view()[i].id);
    }
    assert forall|i: int| 0 <= i < event.members@.len() implies cache.ready(
        event,
    ).members.contains_key((#[trigger] event.members.deep_view()[i]).id) by {
        assert(members[i].0 == event.members.deep_view()[i].id);
    }
}

/// Whether a snapshot names each of its entities once, and names every entity
/// that the cache holds already.
pub open spec fn covers(event: ReadyEvent, cache: CacheView) -> bool {
    let users = user_entries_of(event.users.deep_view());
    let channels = channel_entries_of(event.channels.deep_view());
    let servers = server_entries_of(event.servers.deep_view());
    let members = member_entries_of(event.members.deep_view());
    &&& distinct_keys(users)
    &&& distinct_keys(channels)
    &&& distinct_keys(servers)
    &&& distinct_keys(members)
    &&& forall|k: Seq<char>| #[trigger] cache.users.contains_key(k) ==> has_key(users, k)
    &&& forall|k: Seq<char>| #[trigger] cache.channels.contains_key(k) ==> has_key(channels, k)
    &&& forall|k: Seq<char>| #[trigger] cache.servers.contains_key(k) ==> has_key(servers, k)
    &&& forall|k: crate::models::server::MemberIDView| #[trigger]
        cache.members.contains_key(k) ==> has_key(members, k)
}

/// After a snapshot that names each of its entities once, a cache that held
/// nothing the snapshot does not name (an empty cache, for one) holds as many
/// users, channels, servers and members as the snapshot lists.
pub proof fn lemma_ready_sizes(cache: CacheView, event: ReadyEvent)
    requires
        covers(event, cache),
    ensures
        cache.ready(event).users.len() == event.users@.len(),
        cache.ready(event).channels.len() == event.channels@.len(),
        cache.ready(event).servers.len() == event.servers@.len(),
        cache.ready(event).members.len() == event.members@.len(),
{
    lemma_with_entries_len(cache.users, user_entries_of(event.users.deep_view()));
    lemma_with_entries_len(cache.channels, channel_entries_of(event.channels.deep_view()));
    lemma_with_entries_len(cache.servers, server_entries_of(event.servers.deep_view()));
    lemma_with_entries_len(cache.members, member_entries_of(event.members.deep_view()));
}

/// A user update that clears a field leaves the stored user without that
/// field, whatever the update carries: a value for that field too.
pub proof fn lemma_user_update_clears(cache: CacheView, event: UserUpdateEvent)
    requires
        cache.users.contains_key(event.user_id@),
    ensures
        event.clear == Some(UserField::Avatar) ==> cache.user_update(
            event,
        ).users[event.user_id@].avatar is None,
        event.clear == Some(UserField::StatusText)
            ==> (match cache.user_update(event).users[event.user_id@].status {
            Some(status) => status.text is None,
            None => true,
        }),
{
}

/// A server update that clears a field leaves the stored server without that
/// field, whatever the update carries: a value for that field too.
pub proof fn lemma_server_update_clears(cache: CacheView, event: ServerUpdateEvent)
    requires
        cache.servers.contains_key(event.server_id@),
    ensures
        event.clear == Some(ServerField::Icon) ==> cache.server_update(
            event,
        ).servers[event.server_id@].icon is None,
        event.clear == Some(ServerField::Banner)
            ==> cache.server_update(event).servers[event.server_id@].banner is None,
        event.clear == Some(ServerField::Description)
            ==> cache.server_update(event).servers[event.server_id@].description is None,
{
}

/// A member update that clears a field leaves the stored member without that
/// field, whatever the update carries: a value for that field too.
pub proof fn lemma_member_update_clears(cache: CacheView, event: ServerMemberUpdateEvent)
    requires
        cache.members.contains_key(event.member_id.deep_view()),
    ensures
        event.clear == Some(MemberField::Nickname)
            ==> cache.member_update(event).members[event.member_id.deep_view()].nickname is None,
        event.clear == Some(MemberField::Avatar)
            ==> cache.member_update(event).members[event.member_id.deep_view()].avatar is None,
{
}

/// The description of a channel, where it is of a kind that has one.
pub open spec fn channel_description(channel: ChannelView) -> Option<Seq<char>> {
    match channel {
        ChannelView::Text(c) => c.description,
        ChannelView::Voice(c) => c.description,
        ChannelView::Group(c) => c.description,
        ChannelView::DirectMessage(c) => None,
    }
}

/// The icon of a channel, where it is of a kind that has one.
pub open spec fn channel_icon(channel: ChannelView) -> Option<
    crate::models::attachment::AttachmentView,
> {
    match channel {
        ChannelView::Text(c) => c.icon,
        ChannelView::Voice(c) => c.icon,
        ChannelView::Group(c) => c.icon,
        ChannelView::DirectMessage(c) => None,
    }
}

/// The name of a channel, where it is of a kind that has one.
pub open spec fn channel_name(channel: ChannelView) -> Option<Seq<char>> {
    match channel {
        ChannelView::Text(c) => Some(c.name),
        ChannelView::Voice(c) => Some(c.name),
        ChannelView::Group(c) => Some(c.name),
        ChannelView::DirectMessage(c) => None,
    }
}

/// Whether a channel is not safe for work, where it is of a kind that says so.
pub open spec fn channel_nsfw(channel: ChannelView) -> Option<bool> {
    match channel {
        ChannelView::Text(c) => Some(c.nsfw),
        ChannelView::Voice(c) => Some(c.nsfw),
        ChannelView::Group(c) => Some(c.nsfw),
        ChannelView::DirectMessage(c) => None,
    }
}

/// A channel with the fields that an update can change set to fixed values:
/// what is left tells the kind of the channel and every other field of it.
pub open spec fn rest_of(channel: ChannelView) -> ChannelView {
    match channel {
        ChannelView::Text(c) => ChannelView::Text(
            TextChannelView { name: Seq::empty(), description: None, icon: None, nsfw: false, ..c },
        ),
        ChannelView::Voice(c) => ChannelView::Voice(
            VoiceChannelView { name: Seq::empty(), description: None, icon: None, nsfw: false, ..c },
        ),
        ChannelView::Group(c) => ChannelView::Group(
            GroupChannelView { name: Seq::empty(), description: None, icon: None, nsfw: false, ..c },
        ),
        ChannelView::DirectMessage(c) => channel,
    }
}

/// A channel update that clears a field leaves the stored channel without
/// that field, whatever the update carries: a value for that field too.
pub proof fn lemma_channel_update_clears(cache: CacheView, event: ChannelUpdateEvent)
    requires
        cache.channels.contains_key(event.channel_id@),
    ensures
        event.clear == Some(ChannelField::Description)
            ==> channel_description(cache.channel_update(event).channels[event.channel_id@])
            is None,
        event.clear == Some(ChannelField::Icon) ==> channel_icon(
            cache.channel_update(event).channels[event.channel_id@],
        ) is None,
{
}

/// A user update that clears nothing and carries one field changes that field
/// of the user and no other. The profile is not part of a stored user: an
/// update that carries only a profile changes nothing.
pub proof fn lemma_user_update_single_field(user: UserView, event: UserUpdateEvent)
    requires
        event.clear is None,
    ensures
        event.data.avatar is None && event.data.online is None ==> user.updated(event) == (
        UserView {
            status: if event.data.status is Some {
                event.data.status.deep_view()
            } else {
                user.status
            },
            ..user
        }),
        event.data.status is None && event.data.online is None ==> user.updated(event) == (
        UserView {
            avatar: if event.data.avatar is Some {
                event.data.avatar.deep_view()
            } else {
                user.avatar
            },
            ..user
        }),
        event.data.status is None && event.data.avatar is None ==> user.updated(event) == (
        UserView {
            online: if event.data.online is Some {
                event.data.online->0
            } else {
                user.online
            },
            ..user
        }),
{
}

/// A server update that clears nothing and carries one field changes that
/// field of the server and no other.
pub proof fn lemma_server_update_single_field(server: ServerView, event: ServerUpdateEvent)
    requires
        event.clear is None,
    ensures
        ({
            let d = event.data;
            let new = server.updated(event);
            let no_name = d.name is None;
            let no_description = d.description is None;
            let no_icon = d.icon is None;
            let no_banner = d.banner is None;
            let no_categories = d.categories@.len() == 0;
            let no_system_messages = d.system_messages is None;
            let no_nsfw = d.nsfw is None;
            &&& d.name is Some && no_description && no_icon && no_banner && no_categories
                && no_system_messages && no_nsfw ==> new == (ServerView { name: d.name->0@, ..server })
            &&& no_name && d.description is Some && no_icon && no_banner && no_categories
                && no_system_messages && no_nsfw ==> new == (ServerView {
                description: d.description.deep_view(),
                ..server
            })
            &&& no_name && no_description && d.icon is Some && no_banner && no_categories
                && no_system_messages && no_nsfw ==> new == (ServerView {
                icon: d.icon.deep_view(),
                ..server
            })
            &&& no_name && no_description && no_icon && d.banner is Some && no_categories
                && no_system_messages && no_nsfw ==> new == (ServerView {
                banner: d.banner.deep_view(),
                ..server
            })
            &&& no_name && no_description && no_icon && no_banner && !no_categories
                && no_system_messages && no_nsfw ==> new == (ServerView {
                categories: d.categories.deep_view(),
                ..server
            })
            &&& no_name && no_description && no_icon && no_banner && no_categories
                && d.system_messages is Some && no_nsfw ==> new == (ServerView {
                system_messages: d.system_messages->0.deep_view(),
                ..server
            })
            &&& no_name && no_description && no_icon && no_banner && no_categories
                && no_system_messages && d.nsfw is Some ==> new == (ServerView {
                nsfw: d.nsfw->0,
                ..server
            })
            &&& no_name && no_description && no_icon && no_banner && no_categories
                && no_system_messages && no_nsfw ==> new == server
        }),
{
}

/// A member update that clears nothing and carries one field changes that
/// field of the member and no other.
pub proof fn lemma_member_update_single_field(member: MemberView, event: ServerMemberUpdateEvent)
    requires
        event.clear is None,
    ensures
        ({
            let d = event.data;
            let new = member.updated(event);
            &&& d.nickname is Some && d.avatar is None && d.roles@.len() == 0 ==> new == (
            MemberView { nickname: d.nickname.deep_view(), ..member })
            &&& d.nickname is None && d.avatar is Some && d.roles@.len() == 0 ==> new == (
            MemberView { avatar: d.avatar.deep_view(), ..member })
            &&& d.nickname is None && d.avatar is None && d.roles@.len() > 0 ==> new == (
            MemberView { roles: d.roles.deep_view(), ..member })
            &&& d.nickname is None && d.avatar is None && d.roles@.len() == 0 ==> new == member
        }),
{
}

/// A channel update that clears nothing and carries one field changes that
/// field of the channel and no other. A direct message channel has none of
/// these fields and does not change.
pub proof fn lemma_channel_update_single_field(channel: ChannelView, event: ChannelUpdateEvent)
    requires
        event.clear is None,
    ensures
        ({
            let d = event.data;
            let new = channel.updated(event);
            &&& d.description is None && d.icon is None && d.nsfw is None ==> channel_description(
                new,
            ) == channel_description(channel) && channel_icon(new) == channel_icon(channel)
                && channel_nsfw(new) == channel_nsfw(channel) && channel_name(new) == if d.name
                is Some && !(channel is DirectMessage) {
                Some(d.name->0@)
            } else {
                channel_name(channel)
            }
            &&& d.name is None && d.icon is None && d.nsfw is None ==> channel_name(new)
                == channel_name(channel) && channel_icon(new) == channel_icon(channel)
                && channel_nsfw(new) == channel_nsfw(channel) && channel_description(new) == if
                d.description is Some && !(channel is DirectMessage) {
                d.description.deep_view()
            } else {
                channel_description(channel)
            }
            &&& d.name is None && d.description is None && d.nsfw is None ==> channel_name(new)
                == channel_name(channel) && channel_description(new) == channel_description(
                channel,
            ) && channel_nsfw(new) == channel_nsfw(channel) && channel_icon(new) == if d.icon
                is Some && !(channel is DirectMessage) {
                d.icon.deep_view()
            } else {
                channel_icon(channel)
            }
            &&& d.name is None && d.description is None && d.icon is None ==> channel_name(new)
                == channel_name(channel) && channel_description(new) == channel_description(
                channel,
            ) && channel_icon(new) == channel_icon(channel) && channel_nsfw(new) == if d.nsfw
                is Some && !(channel is DirectMessage) {
                Some(d.nsfw->0)
            } else {
                channel_nsfw(channel)
            }
            &&& rest_of(new) == rest_of(channel)
        }),
{
}

/// An update of a user, a server, a member or a channel changes the entity it
/// names, if the cache holds it, and nothing else in the cache.
pub proof fn lemma_update_touches_one_entity(cache: CacheView, event: ServerEvent)
    ensures
        (match event {
            ServerEvent::UserUpdate(e) => cache.update(event) == (CacheView {
                users: cache.update(event).users,
                ..cache
            }) && forall|id: Seq<char>|
                id != e.user_id@ ==> cache.update(event).users.contains_key(id)
                    == cache.users.contains_key(id) && #[trigger] cache.update(event).users[id]
                    == cache.users[id],
            ServerEvent::ServerUpdate(e) => cache.update(event) == (CacheView {
                servers: cache.update(event).servers,
                ..cache
            }) && forall|id: Seq<char>|
                id != e.server_id@ ==> cache.update(event).servers.contains_key(id)
                    == cache.servers.contains_key(id) && #[trigger] cache.update(event).servers[id]
                    == cache.servers[id],
            ServerEvent::ServerMemberUpdate(e) => cache.update(event) == (CacheView {
                members: cache.update(event).members,
                ..cache
            }) && forall|id: crate::models::server::MemberIDView|
                id != e.member_id.deep_view() ==> cache.update(event).members.contains_key(id)
                    == cache.members.contains_key(id) && #[trigger] cache.update(event).members[id]
                    == cache.members[id],
            ServerEvent::ChannelUpdate(e) => cache.update(event) == (CacheView {
                channels: cache.update(event).channels,
                ..cache
            }) && forall|id: Seq<char>|
                id != e.channel_id@ ==> cache.update(event).channels.contains_key(id)
                    == cache.channels.contains_key(id) && #[trigger] cache.update(
                    event,
                ).channels[id] == cache.channels[id],
            _ => true,
        }),
{
}

/// Applying an event twice leaves the cache as applying it once does. This
/// holds of every event but those that tell of a user joining or leaving a
/// group, which count: a user who joined twice is listed twice.
pub proof fn lemma_update_idempotent(cache: CacheView, event: ServerEvent)
    requires
        !(event is ChannelGroupJoin),
        !(event is ChannelGroupLeave),
    ensures
        cache.update(event).update(event) == cache.update(event),
{
    let once = cache.update(event);
    let twice = once.update(event);
    match event {
        ServerEvent::Ready(e) => {
            lemma_with_entries_twice(cache.users, user_entries_of(e.users.deep_view()));
            lemma_with_entries_twice(cache.channels, channel_entries_of(e.channels.deep_view()));
            lemma_with_entries_twice(cache.servers, server_entries_of(e.servers.deep_view()));
            lemma_with_entries_twice(cache.members, member_entries_of(e.members.deep_view()));
        },
        ServerEvent::Message(m) => {
            assert(twice.channels =~= once.channels);
        },
        ServerEvent::ChannelCreate(c) => {
            assert(twice.channels =~= once.channels);
        },
        ServerEvent::ChannelUpdate(e) => {
            assert(twice.channels =~= once.channels);
        },
        ServerEvent::ChannelDelete(e) => {
            assert(twice.channels =~= once.channels);
        },
        ServerEvent::ServerUpdate(e) => {
            assert(twice.servers =~= once.servers);
        },
        ServerEvent::ServerDelete(e) => {
            assert(twice.servers =~= once.servers);
        },
        ServerEvent::ServerMemberUpdate(e) => {
            assert(twice.members =~= once.members);
        },
        ServerEvent::ServerMemberLeave(e) => {
            assert(twice.members =~= once.members);
        },
        ServerEvent::UserUpdate(e) => {
            assert(twice.users =~= once.users);
        },
        _ => {},
    }
}

} // verus!
