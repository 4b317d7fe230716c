use resvolt::cache::update::position;
use resvolt::cache::{Cache, Channels, Members, Servers, Users};
use resvolt::models::events::{
    ChannelDeleteEvent, ChannelField, ChannelGroupJoinEvent, ChannelGroupLeaveEvent,
    ChannelUpdateEvent, MemberField, PartialChannel, PartialMember, PartialServer, PartialUser,
    ReadyEvent, ServerDeleteEvent, ServerEvent, ServerField, ServerMemberJoinEvent,
    ServerMemberLeaveEvent, ServerMemberUpdateEvent, ServerUpdateEvent, UserField,
    UserUpdateEvent,
};
use resvolt::models::{
    Attachment, AttachmentMetadata, AttachmentTag, Category, Channel, Content,
    DirectMessageChannel, GroupChannel, Member, MemberID, Message, Server, ServerFlags,
    SystemMessageChannels, TextChannel, User, UserProfile, UserStatus, VoiceChannel,
};

fn s(text: &str) -> String {
    text.to_string()
}

fn attachment(id: &str) -> Attachment {
    Attachment {
        id: s(id),
        tag: AttachmentTag::Avatars,
        filename: s("a.png"),
        metadata: AttachmentMetadata::Image { width: 4, height: 3 },
        size: 12,
        content_type: s("image/png"),
    }
}

fn user(id: &str) -> User {
    User {
        id: s(id),
        username: format!("name of {}", id),
        avatar: Some(attachment("old avatar")),
        status: Some(UserStatus { text: Some(s("busy")) }),
        badges: 3,
        flags: 1,
        online: false,
        bot: None,
    }
}

fn server(id: &str) -> Server {
    Server {
        id: s(id),
        owner_id: s("owner"),
        name: s("a server"),
        description: Some(s("described")),
        channels: vec![s("c1"), s("c2")],
        categories: vec![Category { id: s("cat"), title: s("title"), channels: vec![s("c1")] }],
        system_messages: SystemMessageChannels {
            user_joined: Some(s("c1")),
            user_left: None,
            user_kicked: None,
            user_banned: None,
        },
        icon: Some(attachment("icon")),
        banner: Some(attachment("banner")),
        flags: ServerFlags { bits: 2 },
        nsfw: false,
    }
}

fn member(server_id: &str, user_id: &str) -> Member {
    Member {
        id: MemberID { server_id: s(server_id), user_id: s(user_id) },
        nickname: Some(s("nick")),
        avatar: Some(attachment("member avatar")),
        roles: vec![s("r1")],
    }
}

fn text_channel(id: &str) -> TextChannel {
    TextChannel {
        id: s(id),
        server_id: s("s1"),
        name: s("general"),
        description: Some(s("talk")),
        icon: Some(attachment("channel icon")),
        last_message_id: None,
        nsfw: false,
    }
}

fn voice_channel(id: &str) -> VoiceChannel {
    VoiceChannel {
        id: s(id),
        server_id: s("s1"),
        name: s("voice"),
        description: None,
        icon: None,
        nsfw: false,
    }
}

fn group(id: &str, recipients: &[&str]) -> GroupChannel {
    GroupChannel {
        id: s(id),
        owner_id: s("owner"),
        name: s("group"),
        description: None,
        recipients: recipients.iter().map(|r| s(r)).collect(),
        icon: None,
        last_message_id: None,
        nsfw: false,
    }
}

fn dm(id: &str) -> DirectMessageChannel {
    DirectMessageChannel {
        id: s(id),
        active: true,
        recipients: [s("a"), s("b")],
        last_message_id: None,
    }
}

fn message(id: &str, channel_id: &str) -> Message {
    Message {
        id: s(id),
        nonce: None,
        channel_id: s(channel_id),
        author_id: s("u1"),
        content: Content::Text(s("hello")),
        attachments: vec![],
        embeds: vec![],
        mentions: vec![],
        replies: vec![],
        masquerade: None,
        edited: None,
    }
}

fn snapshot() -> ReadyEvent {
    ReadyEvent {
        users: vec![user("u1"), user("u2"), user("u3")],
        servers: vec![server("s1"), server("s2")],
        channels: vec![
            Channel::Text(text_channel("c1")),
            Channel::Voice(voice_channel("c2")),
            Channel::Group(group("c3", &["u1", "u2"])),
            Channel::DirectMessage(dm("c4")),
        ],
        members: vec![member("s1", "u1")],
    }
}

fn ready_cache() -> Cache {
    let mut cache = Cache::new();
    assert_eq!(cache.update(&ServerEvent::Ready(snapshot())), None);
    cache
}

fn carried_server() -> Server {
    Server {
        description: Some(s("carried")),
        icon: Some(attachment("carried icon")),
        banner: Some(attachment("carried banner")),
        ..server("s1")
    }
}

fn no_user_data() -> PartialUser {
    PartialUser { status: None, profile: None, avatar: None, online: None }
}

fn no_server_data() -> PartialServer {
    PartialServer {
        name: None,
        description: None,
        icon: None,
        banner: None,
        categories: vec![],
        system_messages: None,
        nsfw: None,
    }
}

fn no_member_data() -> PartialMember {
    PartialMember { nickname: None, avatar: None, roles: vec![] }
}

fn no_channel_data() -> PartialChannel {
    PartialChannel { name: None, description: None, icon: None, nsfw: None }
}

fn same_state(a: &Cache, b: &Cache) -> bool {
    a.users() == b.users()
        && a.channels() == b.channels()
        && a.servers() == b.servers()
        && a.members() == b.members()
}

#[test]
fn new_cache_holds_nothing() {
    let cache = Cache::new();
    assert_eq!(cache.user(&s("u1")), None);
    assert_eq!(cache.channel(&s("c1")), None);
    assert_eq!(cache.server(&s("s1")), None);
    assert_eq!(cache.member(&MemberID { server_id: s("s1"), user_id: s("u1") }), None);
    assert_eq!(cache.servers_count(), 0);
    assert!(cache.users().is_empty());
    assert!(same_state(&cache, &Cache::default()));
}

#[test]
fn snapshot_is_retrievable_by_id() {
    let cache = ready_cache();
    let event = snapshot();
    for user in &event.users {
        assert_eq!(cache.user(&user.id).as_ref(), Some(user));
    }
    for server in &event.servers {
        assert_eq!(cache.server(&server.id).as_ref(), Some(server));
    }
    for channel in &event.channels {
        assert_eq!(cache.channel(channel.id()).as_ref(), Some(channel));
    }
    for member in &event.members {
        assert_eq!(cache.member(&member.id).as_ref(), Some(member));
    }
}

#[test]
fn snapshot_sizes_are_the_list_lengths() {
    let cache = ready_cache();
    assert_eq!(cache.users().len(), 3);
    assert_eq!(cache.servers().len(), 2);
    assert_eq!(cache.servers_count(), 2);
    assert_eq!(cache.channels().len(), 4);
    assert_eq!(cache.members().len(), 1);
}

#[test]
fn snapshot_with_an_id_twice_keeps_the_last() {
    let mut cache = Cache::new();
    let mut second = user("u1");
    second.username = s("second");
    let event = ReadyEvent {
        users: vec![user("u1"), second.clone()],
        servers: vec![],
        channels: vec![],
        members: vec![],
    };
    cache.update(&ServerEvent::Ready(event));
    assert_eq!(cache.users().len(), 1);
    assert_eq!(cache.user(&s("u1")), Some(second));
}

#[test]
fn snapshot_keeps_what_it_does_not_name() {
    let mut cache = ready_cache();
    let event = ReadyEvent {
        users: vec![user("u9")],
        servers: vec![],
        channels: vec![],
        members: vec![],
    };
    cache.update(&ServerEvent::Ready(event));
    assert_eq!(cache.users().len(), 4);
    assert_eq!(cache.user(&s("u1")), Some(user("u1")));
    assert_eq!(cache.servers_count(), 2);
}

#[test]
fn user_update_sets_what_it_carries() {
    let mut cache = ready_cache();
    let event = UserUpdateEvent {
        user_id: s("u1"),
        data: PartialUser {
            status: Some(UserStatus { text: Some(s("away")) }),
            profile: Some(UserProfile { content: Some(s("about")), background: None }),
            avatar: Some(attachment("new avatar")),
            online: Some(true),
        },
        clear: None,
    };
    assert_eq!(cache.update(&ServerEvent::UserUpdate(event)), None);
    let mut expected = user("u1");
    expected.status = Some(UserStatus { text: Some(s("away")) });
    expected.avatar = Some(attachment("new avatar"));
    expected.online = true;
    assert_eq!(cache.user(&s("u1")), Some(expected));
    assert_eq!(cache.user(&s("u2")), Some(user("u2")));
}

#[test]
fn user_update_changes_one_field_when_it_carries_one() {
    let before = ready_cache().user(&s("u2")).unwrap();

    let mut cache = ready_cache();
    let data = PartialUser { online: Some(true), ..no_user_data() };
    cache.update(&ServerEvent::UserUpdate(UserUpdateEvent { user_id: s("u2"), data, clear: None }));
    assert_eq!(cache.user(&s("u2")), Some(User { online: true, ..before.clone() }));

    let mut cache = ready_cache();
    let data = PartialUser { avatar: Some(attachment("n")), ..no_user_data() };
    cache.update(&ServerEvent::UserUpdate(UserUpdateEvent { user_id: s("u2"), data, clear: None }));
    assert_eq!(cache.user(&s("u2")), Some(User { avatar: Some(attachment("n")), ..before.clone() }));

    let mut cache = ready_cache();
    let data = PartialUser { status: Some(UserStatus { text: None }), ..no_user_data() };
    cache.update(&ServerEvent::UserUpdate(UserUpdateEvent { user_id: s("u2"), data, clear: None }));
    assert_eq!(
        cache.user(&s("u2")),
        Some(User { status: Some(UserStatus { text: None }), ..before.clone() })
    );

    let mut cache = ready_cache();
    let data = PartialUser {
        profile: Some(UserProfile { content: None, background: None }),
        ..no_user_data()
    };
    cache.update(&ServerEvent::UserUpdate(UserUpdateEvent { user_id: s("u2"), data, clear: None }));
    assert_eq!(cache.user(&s("u2")), Some(before));
}

#[test]
fn user_update_clears_the_field_it_names() {
    let mut cache = ready_cache();
    let event = UserUpdateEvent {
        user_id: s("u1"),
        data: PartialUser { online: Some(true), ..no_user_data() },
        clear: Some(UserField::Avatar),
    };
    cache.update(&ServerEvent::UserUpdate(event));
    let found = cache.user(&s("u1")).unwrap();
    assert_eq!(found.avatar, None);
    assert!(found.online);
    assert_eq!(found.status, Some(UserStatus { text: Some(s("busy")) }));

    let event = UserUpdateEvent {
        user_id: s("u1"),
        data: no_user_data(),
        clear: Some(UserField::StatusText),
    };
    cache.update(&ServerEvent::UserUpdate(event));
    assert_eq!(cache.user(&s("u1")).unwrap().status, Some(UserStatus { text: None }));

    for field in [UserField::ProfileContent, UserField::ProfileBackground] {
        let before = cache.user(&s("u2"));
        let event = UserUpdateEvent { user_id: s("u2"), data: no_user_data(), clear: Some(field) };
        cache.update(&ServerEvent::UserUpdate(event));
        assert_eq!(cache.user(&s("u2")), before);
    }
}

#[test]
fn a_cleared_field_is_absent_even_where_the_update_carries_it() {
    let mut cache = ready_cache();
    let event = UserUpdateEvent {
        user_id: s("u1"),
        data: PartialUser {
            avatar: Some(attachment("new")),
            status: Some(UserStatus { text: Some(s("carried")) }),
            ..no_user_data()
        },
        clear: Some(UserField::Avatar),
    };
    cache.update(&ServerEvent::UserUpdate(event));
    let found = cache.user(&s("u1")).unwrap();
    assert_eq!(found.avatar, None);
    assert_eq!(found.status, Some(UserStatus { text: Some(s("carried")) }));

    let event = UserUpdateEvent {
        user_id: s("u2"),
        data: PartialUser {
            status: Some(UserStatus { text: Some(s("carried")) }),
            avatar: Some(attachment("new")),
            ..no_user_data()
        },
        clear: Some(UserField::StatusText),
    };
    cache.update(&ServerEvent::UserUpdate(event));
    let found = cache.user(&s("u2")).unwrap();
    assert_eq!(found.status, Some(UserStatus { text: None }));
    assert_eq!(found.avatar, Some(attachment("new")));

    for (field, expected) in [
        (ServerField::Icon, Server { icon: None, ..carried_server() }),
        (ServerField::Banner, Server { banner: None, ..carried_server() }),
        (ServerField::Description, Server { description: None, ..carried_server() }),
    ] {
        let mut cache = ready_cache();
        let event = ServerUpdateEvent {
            server_id: s("s1"),
            data: PartialServer {
                description: Some(s("carried")),
                icon: Some(attachment("carried icon")),
                banner: Some(attachment("carried banner")),
                ..no_server_data()
            },
            clear: Some(field),
        };
        cache.update(&ServerEvent::ServerUpdate(event));
        assert_eq!(cache.server(&s("s1")), Some(expected));
    }

    let id = MemberID { server_id: s("s1"), user_id: s("u1") };
    for (field, expected) in [
        (
            MemberField::Nickname,
            Member { nickname: None, avatar: Some(attachment("carried")), ..member("s1", "u1") },
        ),
        (
            MemberField::Avatar,
            Member { nickname: Some(s("carried")), avatar: None, ..member("s1", "u1") },
        ),
    ] {
        let mut cache = ready_cache();
        let event = ServerMemberUpdateEvent {
            member_id: id.clone(),
            data: PartialMember {
                nickname: Some(s("carried")),
                avatar: Some(attachment("carried")),
                ..no_member_data()
            },
            clear: Some(field),
        };
        cache.update(&ServerEvent::ServerMemberUpdate(event));
        assert_eq!(cache.member(&id), Some(expected));
    }

    for (field, expected) in [
        (
            ChannelField::Description,
            TextChannel {
                description: None,
                icon: Some(attachment("carried")),
                ..text_channel("c1")
            },
        ),
        (
            ChannelField::Icon,
            TextChannel { description: Some(s("carried")), icon: None, ..text_channel("c1") },
        ),
    ] {
        let mut cache = ready_cache();
        let event = ChannelUpdateEvent {
            channel_id: s("c1"),
            data: PartialChannel {
                description: Some(s("carried")),
                icon: Some(attachment("carried")),
                ..no_channel_data()
            },
            clear: Some(field),
        };
        cache.update(&ServerEvent::ChannelUpdate(event));
        assert_eq!(cache.channel(&s("c1")), Some(Channel::Text(expected)));
    }
}

#[test]
fn update_of_an_unknown_entity_changes_nothing() {
    let mut cache = ready_cache();
    let before = ready_cache();
    let event = UserUpdateEvent {
        user_id: s("nobody"),
        data: PartialUser { online: Some(true), ..no_user_data() },
        clear: None,
    };
    cache.update(&ServerEvent::UserUpdate(event));
    let event = ServerUpdateEvent {
        server_id: s("nowhere"),
        data: PartialServer { name: Some(s("x")), ..no_server_data() },
        clear: None,
    };
    cache.update(&ServerEvent::ServerUpdate(event));
    cache.update(&ServerEvent::Message(message("m1", "no channel")));
    assert!(same_state(&cache, &before));
    assert_eq!(cache.user(&s("nobody")), None);
}

#[test]
fn server_update_sets_what_it_carries() {
    let mut cache = ready_cache();
    let categories = vec![Category { id: s("new"), title: s("new"), channels: vec![] }];
    let system_messages = SystemMessageChannels {
        user_joined: None,
        user_left: Some(s("c2")),
        user_kicked: None,
        user_banned: None,
    };
    let event = ServerUpdateEvent {
        server_id: s("s1"),
        data: PartialServer {
            name: Some(s("renamed")),
            description: Some(s("new description")),
            icon: Some(attachment("new icon")),
            banner: Some(attachment("new banner")),
            categories: categories.clone(),
            system_messages: Some(system_messages.clone()),
            nsfw: Some(true),
        },
        clear: None,
    };
    cache.update(&ServerEvent::ServerUpdate(event));
    let expected = Server {
        name: s("renamed"),
        description: Some(s("new description")),
        icon: Some(attachment("new icon")),
        banner: Some(attachment("new banner")),
        categories,
        system_messages,
        nsfw: true,
        ..server("s1")
    };
    assert_eq!(cache.server(&s("s1")), Some(expected));
    assert_eq!(cache.server(&s("s2")), Some(server("s2")));
}

#[test]
fn server_update_changes_one_field_when_it_carries_one() {
    let mut cache = ready_cache();
    let event = ServerUpdateEvent {
        server_id: s("s1"),
        data: PartialServer { nsfw: Some(true), ..no_server_data() },
        clear: None,
    };
    cache.update(&ServerEvent::ServerUpdate(event));
    assert_eq!(cache.server(&s("s1")), Some(Server { nsfw: true, ..server("s1") }));

    let mut cache = ready_cache();
    let event = ServerUpdateEvent {
        server_id: s("s1"),
        data: PartialServer { name: Some(s("n")), ..no_server_data() },
        clear: None,
    };
    cache.update(&ServerEvent::ServerUpdate(event));
    assert_eq!(cache.server(&s("s1")), Some(Server { name: s("n"), ..server("s1") }));

    let mut cache = ready_cache();
    let event = ServerUpdateEvent { server_id: s("s1"), data: no_server_data(), clear: None };
    cache.update(&ServerEvent::ServerUpdate(event));
    assert_eq!(cache.server(&s("s1")), Some(server("s1")));
}

#[test]
fn server_update_clears_the_field_it_names() {
    let mut cache = ready_cache();
    let event = ServerUpdateEvent {
        server_id: s("s1"),
        data: PartialServer { name: Some(s("n")), ..no_server_data() },
        clear: Some(ServerField::Icon),
    };
    cache.update(&ServerEvent::ServerUpdate(event));
    assert_eq!(cache.server(&s("s1")), Some(Server { name: s("n"), icon: None, ..server("s1") }));

    let event = ServerUpdateEvent {
        server_id: s("s1"),
        data: no_server_data(),
        clear: Some(ServerField::Banner),
    };
    cache.update(&ServerEvent::ServerUpdate(event));
    assert_eq!(cache.server(&s("s1")).unwrap().banner, None);

    let event = ServerUpdateEvent {
        server_id: s("s1"),
        data: no_server_data(),
        clear: Some(ServerField::Description),
    };
    cache.update(&ServerEvent::ServerUpdate(event));
    assert_eq!(cache.server(&s("s1")).unwrap().description, None);
}

#[test]
fn member_update_sets_and_clears() {
    let id = MemberID { server_id: s("s1"), user_id: s("u1") };
    let mut cache = ready_cache();
    let event = ServerMemberUpdateEvent {
        member_id: id.clone(),
        data: PartialMember { roles: vec![s("r2"), s("r3")], ..no_member_data() },
        clear: Some(MemberField::Nickname),
    };
    cache.update(&ServerEvent::ServerMemberUpdate(event));
    assert_eq!(
        cache.member(&id),
        Some(Member { nickname: None, roles: vec![s("r2"), s("r3")], ..member("s1", "u1") })
    );

    let event = ServerMemberUpdateEvent {
        member_id: id.clone(),
        data: PartialMember { nickname: Some(s("again")), ..no_member_data() },
        clear: Some(MemberField::Avatar),
    };
    cache.update(&ServerEvent::ServerMemberUpdate(event));
    assert_eq!(
        cache.member(&id),
        Some(Member {
            nickname: Some(s("again")),
            avatar: None,
            roles: vec![s("r2"), s("r3")],
            ..member("s1", "u1")
        })
    );

    let event = ServerMemberUpdateEvent {
        member_id: id.clone(),
        data: PartialMember { avatar: Some(attachment("a")), ..no_member_data() },
        clear: None,
    };
    cache.update(&ServerEvent::ServerMemberUpdate(event));
    assert_eq!(cache.member(&id).unwrap().avatar, Some(attachment("a")));
    assert_eq!(cache.member(&id).unwrap().roles, vec![s("r2"), s("r3")]);
}

#[test]
fn member_join_asks_for_the_member_and_stores_it() {
    let mut cache = ready_cache();
    let event = ServerMemberJoinEvent { server_id: s("s2"), user_id: s("u2") };
    let id = MemberID { server_id: s("s2"), user_id: s("u2") };
    let fetch = cache.update(&ServerEvent::ServerMemberJoin(event.clone()));
    assert_eq!(fetch, Some(id.clone()));
    assert_eq!(cache.member(&id), None);
    assert_eq!(MemberID::from((&s("s2"), &s("u2"))), id);

    event.update(&mut cache, None);
    assert_eq!(cache.member(&id), None);
    event.update(&mut cache, Some(member("s2", "u2")));
    assert_eq!(cache.member(&id), Some(member("s2", "u2")));
    assert_eq!(cache.members().len(), 2);

    let fetch = cache.update(&ServerEvent::ServerMemberJoin(event));
    assert_eq!(fetch, None);
    assert_eq!(cache.members().len(), 2);
}

#[test]
fn member_leave_and_deletes_forget() {
    let mut cache = ready_cache();
    let event = ServerMemberLeaveEvent { server_id: s("s1"), user_id: s("u1") };
    cache.update(&ServerEvent::ServerMemberLeave(event));
    assert_eq!(cache.member(&MemberID { server_id: s("s1"), user_id: s("u1") }), None);
    assert_eq!(cache.members().len(), 0);

    cache.update(&ServerEvent::ServerDelete(ServerDeleteEvent { server_id: s("s1") }));
    assert_eq!(cache.server(&s("s1")), None);
    assert_eq!(cache.servers_count(), 1);
    cache.update(&ServerEvent::ServerDelete(ServerDeleteEvent { server_id: s("s1") }));
    assert_eq!(cache.servers_count(), 1);

    cache.update(&ServerEvent::ChannelDelete(ChannelDeleteEvent { channel_id: s("c2") }));
    assert_eq!(cache.channel(&s("c2")), None);
    assert_eq!(cache.channels().len(), 3);
    assert_eq!(cache.users().len(), 3);
}

#[test]
fn channel_create_stores_the_channel() {
    let mut cache = Cache::new();
    let channel = Channel::Text(text_channel("c9"));
    cache.update(&ServerEvent::ChannelCreate(channel.clone()));
    assert_eq!(cache.channel(&s("c9")), Some(channel));
    let mut renamed = text_channel("c9");
    renamed.name = s("renamed");
    cache.update(&ServerEvent::ChannelCreate(Channel::Text(renamed.clone())));
    assert_eq!(cache.channel(&s("c9")), Some(Channel::Text(renamed)));
    assert_eq!(cache.channels().len(), 1);
}

#[test]
fn channel_update_sets_and_clears() {
    let mut cache = ready_cache();
    let event = ChannelUpdateEvent {
        channel_id: s("c1"),
        data: PartialChannel { name: Some(s("renamed")), nsfw: Some(true), ..no_channel_data() },
        clear: Some(ChannelField::Description),
    };
    cache.update(&ServerEvent::ChannelUpdate(event));
    assert_eq!(
        cache.channel(&s("c1")),
        Some(Channel::Text(TextChannel {
            name: s("renamed"),
            nsfw: true,
            description: None,
            ..text_channel("c1")
        }))
    );

    let event = ChannelUpdateEvent {
        channel_id: s("c1"),
        data: PartialChannel { description: Some(s("again")), ..no_channel_data() },
        clear: Some(ChannelField::Icon),
    };
    cache.update(&ServerEvent::ChannelUpdate(event));
    assert_eq!(
        cache.channel(&s("c1")),
        Some(Channel::Text(TextChannel {
            name: s("renamed"),
            nsfw: true,
            description: Some(s("again")),
            icon: None,
            ..text_channel("c1")
        }))
    );

    let event = ChannelUpdateEvent {
        channel_id: s("c2"),
        data: PartialChannel { icon: Some(attachment("i")), ..no_channel_data() },
        clear: None,
    };
    cache.update(&ServerEvent::ChannelUpdate(event));
    assert_eq!(
        cache.channel(&s("c2")),
        Some(Channel::Voice(VoiceChannel { icon: Some(attachment("i")), ..voice_channel("c2") }))
    );

    let event = ChannelUpdateEvent {
        channel_id: s("c3"),
        data: PartialChannel { name: Some(s("friends")), ..no_channel_data() },
        clear: None,
    };
    cache.update(&ServerEvent::ChannelUpdate(event));
    assert_eq!(
        cache.channel(&s("c3")),
        Some(Channel::Group(GroupChannel { name: s("friends"), ..group("c3", &["u1", "u2"]) }))
    );

    let event = ChannelUpdateEvent {
        channel_id: s("c4"),
        data: PartialChannel { name: Some(s("x")), ..no_channel_data() },
        clear: Some(ChannelField::Icon),
    };
    cache.update(&ServerEvent::ChannelUpdate(event));
    assert_eq!(cache.channel(&s("c4")), Some(Channel::DirectMessage(dm("c4"))));
}

#[test]
fn message_becomes_the_last_message_of_its_channel() {
    let mut cache = ready_cache();
    cache.update(&ServerEvent::Message(message("m1", "c1")));
    cache.update(&ServerEvent::Message(message("m2", "c2")));
    cache.update(&ServerEvent::Message(message("m3", "c3")));
    cache.update(&ServerEvent::Message(message("m4", "c4")));
    assert_eq!(
        cache.channel(&s("c1")),
        Some(Channel::Text(TextChannel { last_message_id: Some(s("m1")), ..text_channel("c1") }))
    );
    assert_eq!(cache.channel(&s("c2")), Some(Channel::Voice(voice_channel("c2"))));
    assert_eq!(
        cache.channel(&s("c3")),
        Some(Channel::Group(GroupChannel {
            last_message_id: Some(s("m3")),
            ..group("c3", &["u1", "u2"])
        }))
    );
    assert_eq!(
        cache.channel(&s("c4")),
        Some(Channel::DirectMessage(DirectMessageChannel {
            last_message_id: Some(s("m4")),
            ..dm("c4")
        }))
    );
}

#[test]
fn group_join_and_leave_splice_the_recipients() {
    let mut cache = ready_cache();
    let join = ChannelGroupJoinEvent { channel_id: s("c3"), user_id: s("u3") };
    cache.update(&ServerEvent::ChannelGroupJoin(join.clone()));
    assert_eq!(cache.channel(&s("c3")), Some(Channel::Group(group("c3", &["u1", "u2", "u3"]))));
    cache.update(&ServerEvent::ChannelGroupJoin(join));
    assert_eq!(
        cache.channel(&s("c3")),
        Some(Channel::Group(group("c3", &["u1", "u2", "u3", "u3"])))
    );

    let leave = ChannelGroupLeaveEvent { channel_id: s("c3"), user_id: s("u3") };
    cache.update(&ServerEvent::ChannelGroupLeave(leave.clone()));
    assert_eq!(cache.channel(&s("c3")), Some(Channel::Group(group("c3", &["u1", "u2", "u3"]))));
    let leave_first = ChannelGroupLeaveEvent { channel_id: s("c3"), user_id: s("u1") };
    cache.update(&ServerEvent::ChannelGroupLeave(leave_first));
    assert_eq!(cache.channel(&s("c3")), Some(Channel::Group(group("c3", &["u2", "u3"]))));
    let leave_unknown = ChannelGroupLeaveEvent { channel_id: s("c3"), user_id: s("u9") };
    cache.update(&ServerEvent::ChannelGroupLeave(leave_unknown));
    assert_eq!(cache.channel(&s("c3")), Some(Channel::Group(group("c3", &["u2", "u3"]))));

    let join_text = ChannelGroupJoinEvent { channel_id: s("c1"), user_id: s("u3") };
    cache.update(&ServerEvent::ChannelGroupJoin(join_text));
    assert_eq!(cache.channel(&s("c1")), Some(Channel::Text(text_channel("c1"))));
    let leave_text = ChannelGroupLeaveEvent { channel_id: s("c1"), user_id: s("u3") };
    cache.update(&ServerEvent::ChannelGroupLeave(leave_text));
    assert_eq!(cache.channel(&s("c1")), Some(Channel::Text(text_channel("c1"))));
}

#[test]
fn events_the_cache_has_no_part_in_change_nothing() {
    let mut cache = ready_cache();
    let before = ready_cache();
    assert_eq!(cache.update(&ServerEvent::Authenticated), None);
    assert_eq!(cache.update(&ServerEvent::Pong { data: 3 }), None);
    assert!(same_state(&cache, &before));
}

#[test]
fn applying_an_event_twice_is_applying_it_once() {
    let events = vec![
        ServerEvent::Ready(snapshot()),
        ServerEvent::UserUpdate(UserUpdateEvent {
            user_id: s("u1"),
            data: PartialUser {
                status: Some(UserStatus { text: Some(s("x")) }),
                ..no_user_data()
            },
            clear: Some(UserField::StatusText),
        }),
        ServerEvent::UserUpdate(UserUpdateEvent {
            user_id: s("u1"),
            data: no_user_data(),
            clear: Some(UserField::Avatar),
        }),
        ServerEvent::ServerUpdate(ServerUpdateEvent {
            server_id: s("s1"),
            data: PartialServer { name: Some(s("n")), ..no_server_data() },
            clear: Some(ServerField::Banner),
        }),
        ServerEvent::ServerMemberUpdate(ServerMemberUpdateEvent {
            member_id: MemberID { server_id: s("s1"), user_id: s("u1") },
            data: PartialMember { roles: vec![s("r9")], ..no_member_data() },
            clear: Some(MemberField::Nickname),
        }),
        ServerEvent::ChannelUpdate(ChannelUpdateEvent {
            channel_id: s("c1"),
            data: PartialChannel { nsfw: Some(true), ..no_channel_data() },
            clear: Some(ChannelField::Icon),
        }),
        ServerEvent::Message(message("m1", "c1")),
        ServerEvent::ChannelCreate(Channel::Text(text_channel("c7"))),
        ServerEvent::ChannelDelete(ChannelDeleteEvent { channel_id: s("c1") }),
        ServerEvent::ServerDelete(ServerDeleteEvent { server_id: s("s2") }),
        ServerEvent::ServerMemberLeave(ServerMemberLeaveEvent {
            server_id: s("s1"),
            user_id: s("u1"),
        }),
    ];
    for event in events {
        let mut once = ready_cache();
        once.update(&event);
        let mut twice = ready_cache();
        twice.update(&event);
        twice.update(&event);
        assert!(same_state(&once, &twice), "{:?}", event);
    }
}

#[test]
fn snapshots_are_copies() {
    let mut cache = ready_cache();
    let users = cache.users();
    let channels = cache.channels();
    let servers = cache.servers();
    let members = cache.members();
    cache.update(&ServerEvent::ServerDelete(ServerDeleteEvent { server_id: s("s1") }));
    assert_eq!(users.len(), 3);
    assert_eq!(users.get("u2"), Some(&user("u2")));
    assert_eq!(channels.get("c4"), Some(&Channel::DirectMessage(dm("c4"))));
    assert_eq!(servers.len(), 2);
    assert_eq!(servers.get("s1"), Some(&server("s1")));
    assert_eq!(
        members.get(&MemberID { server_id: s("s1"), user_id: s("u1") }),
        Some(&member("s1", "u1"))
    );
    assert_eq!(cache.servers().len(), 1);
}

#[test]
fn filters_return_what_they_accept() {
    let cache = ready_cache();
    let mut found: Vec<String> =
        cache.filter_users(|user| user.id != "u2").into_iter().map(|user| user.id).collect();
    found.sort();
    assert_eq!(found, vec![s("u1"), s("u3")]);
    assert_eq!(cache.filter_users(|_| false), vec![]);
    assert_eq!(cache.filter_users(|_| true).len(), 3);

    let groups = cache.filter_channels(|channel| matches!(channel, Channel::Group(_)));
    assert_eq!(groups, vec![Channel::Group(group("c3", &["u1", "u2"]))]);
    assert_eq!(cache.filter_channels(|_| true).len(), 4);

    assert_eq!(cache.filter_servers(|server| server.id == "s2"), vec![server("s2")]);
    assert_eq!(cache.filter_servers(|server| server.nsfw), vec![]);

    assert_eq!(
        cache.filter_members(|member| member.roles.contains(&s("r1"))),
        vec![member("s1", "u1")]
    );
    assert_eq!(cache.filter_members(|member| member.nickname.is_none()), vec![]);
}

#[test]
fn events_update_the_cache_by_themselves() {
    let mut cache = Cache::new();
    snapshot().update(&mut cache);
    assert_eq!(cache.users().len(), 3);
    Channel::Voice(voice_channel("c8")).update(&mut cache);
    assert_eq!(cache.channel(&s("c8")), Some(Channel::Voice(voice_channel("c8"))));
    message("m1", "c1").update(&mut cache);
    assert_eq!(
        cache.channel(&s("c1")),
        Some(Channel::Text(TextChannel { last_message_id: Some(s("m1")), ..text_channel("c1") }))
    );
    let event = UserUpdateEvent {
        user_id: s("u1"),
        data: PartialUser { online: Some(true), ..no_user_data() },
        clear: None,
    };
    assert_eq!(event.apply(&user("u1")), User { online: true, ..user("u1") });
    event.update(&mut cache);
    assert_eq!(cache.user(&s("u1")), Some(User { online: true, ..user("u1") }));
}

#[test]
fn position_is_the_first_place_of_an_id() {
    let ids = vec![s("a"), s("b"), s("a"), s("c")];
    assert_eq!(position(&ids, &s("a")), Some(0));
    assert_eq!(position(&ids, &s("b")), Some(1));
    assert_eq!(position(&ids, &s("c")), Some(3));
    assert_eq!(position(&ids, &s("d")), None);
    assert_eq!(position(&vec![], &s("a")), None);
}

#[test]
fn tables_stand_by_themselves() {
    let cache = ready_cache();
    assert_eq!(cache.users.get(&s("u1")), Some(user("u1")));
    assert_eq!(cache.users.get(&s("nobody")), None);
    assert_eq!(cache.users.all().len(), 3);
    assert_eq!(cache.users.filter(|user| user.id == "u3"), vec![user("u3")]);
    assert_eq!(cache.channels.get(&s("c4")), Some(Channel::DirectMessage(dm("c4"))));
    assert_eq!(cache.channels.all().len(), 4);
    assert_eq!(cache.channels.filter(|_| false), vec![]);
    assert_eq!(cache.servers.get(&s("s2")), Some(server("s2")));
    assert_eq!(cache.servers.count(), 2);
    assert_eq!(cache.servers.all().len(), 2);
    assert_eq!(cache.servers.filter(|server| server.id == "s1"), vec![server("s1")]);
    let id = MemberID { server_id: s("s1"), user_id: s("u1") };
    assert_eq!(cache.members.get(&id), Some(member("s1", "u1")));
    assert_eq!(cache.members.all().len(), 1);
    assert_eq!(cache.members.filter(|_| true), vec![member("s1", "u1")]);
}

#[test]
fn a_cache_can_be_put_together_from_its_tables() {
    let filled = ready_cache();
    let mut cache = Cache {
        users: filled.users,
        channels: Channels::new(),
        servers: Servers::default(),
        members: Members::new(),
    };
    let event = UserUpdateEvent {
        user_id: s("u1"),
        data: PartialUser { online: Some(true), ..no_user_data() },
        clear: None,
    };
    cache.update(&ServerEvent::UserUpdate(event));
    assert_eq!(cache.users.get(&s("u1")), Some(User { online: true, ..user("u1") }));
    assert_eq!(cache.channels.all().len(), 0);
    assert_eq!(cache.servers.count(), 0);
    assert_eq!(Users::new().all().len(), 0);
}
