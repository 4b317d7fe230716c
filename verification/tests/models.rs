use resvolt::models::{
    Category, Channel, Content, CreateBan, DirectMessageChannel, GroupChannel, Member, MemberID,
    Message, MessageEdited, RevoltPermission, ServerFlags, ServerMembers, SystemMessage,
    SystemMessageChannels, TextChannel, User, UserFlags, VoiceChannel, BotInformation, ID,
};

fn s(text: &str) -> String {
    text.to_string()
}

fn text_channel() -> TextChannel {
    TextChannel {
        id: s("t"),
        server_id: s("s"),
        name: s("n"),
        description: None,
        icon: None,
        last_message_id: None,
        nsfw: false,
    }
}

fn voice_channel() -> VoiceChannel {
    VoiceChannel {
        id: s("v"),
        server_id: s("s"),
        name: s("n"),
        description: None,
        icon: None,
        nsfw: false,
    }
}

fn group() -> GroupChannel {
    GroupChannel {
        id: s("g"),
        owner_id: s("o"),
        name: s("n"),
        description: None,
        recipients: vec![],
        icon: None,
        last_message_id: None,
        nsfw: false,
    }
}

fn dm() -> DirectMessageChannel {
    DirectMessageChannel {
        id: s("d"),
        active: false,
        recipients: [s("a"), s("b")],
        last_message_id: None,
    }
}

fn user(id: &str, bot: Option<BotInformation>) -> User {
    User {
        id: s(id),
        username: s("name"),
        avatar: None,
        status: None,
        badges: 0,
        flags: 0,
        online: false,
        bot,
    }
}

fn member(user_id: &str) -> Member {
    Member {
        id: MemberID { server_id: s("s"), user_id: s(user_id) },
        nickname: None,
        avatar: None,
        roles: vec![],
    }
}

#[test]
fn channel_id_is_the_id_of_its_kind() {
    let id: ID = s("t");
    assert_eq!(Channel::Text(text_channel()).id(), &id);
    assert_eq!(Channel::Voice(voice_channel()).id(), "v");
    assert_eq!(Channel::Group(group()).id(), "g");
    assert_eq!(Channel::DirectMessage(dm()).id(), "d");
}

#[test]
fn channel_gives_the_kind_it_is() {
    assert_eq!(Channel::Text(text_channel()).get_text_channel(), Some(text_channel()));
    assert_eq!(Channel::Text(text_channel()).get_voice_channel(), None);
    assert_eq!(Channel::Text(text_channel()).get_group_channel(), None);
    assert_eq!(Channel::Text(text_channel()).get_dm_channel(), None);
    assert_eq!(Channel::Voice(voice_channel()).get_voice_channel(), Some(voice_channel()));
    assert_eq!(Channel::Voice(voice_channel()).get_text_channel(), None);
    assert_eq!(Channel::Group(group()).get_group_channel(), Some(group()));
    assert_eq!(Channel::Group(group()).get_dm_channel(), None);
    assert_eq!(Channel::DirectMessage(dm()).get_dm_channel(), Some(dm()));
    assert_eq!(Channel::DirectMessage(dm()).get_group_channel(), None);
}

#[test]
fn clones_are_equal() {
    let channel = Channel::Group(GroupChannel { recipients: vec![s("a"), s("b")], ..group() });
    assert_eq!(channel.clone(), channel);
    assert_eq!(Channel::DirectMessage(dm()).clone(), Channel::DirectMessage(dm()));
    assert_eq!(member("u").clone(), member("u"));
    let bot = user("b", Some(BotInformation { owner_id: s("o") }));
    assert_eq!(bot.clone(), bot);
}

#[test]
fn user_is_a_bot_with_bot_information() {
    assert!(user("b", Some(BotInformation { owner_id: s("o") })).is_bot());
    assert!(!user("u", None).is_bot());
}

#[test]
fn message_is_edited_with_an_edition_date() {
    let mut message = Message {
        id: s("m"),
        nonce: None,
        channel_id: s("c"),
        author_id: s("a"),
        content: Content::Text(s("t")),
        attachments: vec![],
        embeds: vec![],
        mentions: vec![],
        replies: vec![],
        masquerade: None,
        edited: None,
    };
    assert!(!message.is_edited());
    message.edited = Some(MessageEdited { date: s("2022-01-01") });
    assert!(message.is_edited());
}

#[test]
fn content_shows_as_text() {
    let id = s("u");
    let by = s("b");
    let cases = vec![
        (Content::Text(s("hello")), "hello"),
        (Content::SystemMessage(SystemMessage::Text { content: s("sys") }), "sys"),
        (
            Content::SystemMessage(SystemMessage::UserAdded { id: id.clone(), by: by.clone() }),
            "User added to the channel.",
        ),
        (
            Content::SystemMessage(SystemMessage::UserRemove { id: id.clone(), by: by.clone() }),
            "User removed from the channel.",
        ),
        (
            Content::SystemMessage(SystemMessage::UserJoined { id: id.clone() }),
            "User joined the channel.",
        ),
        (
            Content::SystemMessage(SystemMessage::UserLeft { id: id.clone() }),
            "User left the channel.",
        ),
        (
            Content::SystemMessage(SystemMessage::UserKicked { id: id.clone() }),
            "User kicked from the channel.",
        ),
        (
            Content::SystemMessage(SystemMessage::UserBanned { id: id.clone() }),
            "User banned from the channel.",
        ),
        (
            Content::SystemMessage(SystemMessage::ChannelRenamed {
                name: s("n"),
                by: by.clone(),
            }),
            "Channel renamed.",
        ),
        (
            Content::SystemMessage(SystemMessage::ChannelDescriptionChanged { by: by.clone() }),
            "Channel description changed.",
        ),
        (
            Content::SystemMessage(SystemMessage::ChannelIconChanged { by: by.clone() }),
            "Channel icon changed.",
        ),
    ];
    for (content, expected) in cases {
        assert_eq!(content.to_text(), expected);
    }
}

#[test]
fn category_starts_without_channels() {
    assert_eq!(
        Category::new(s("id"), "title"),
        Category { id: s("id"), title: s("title"), channels: vec![] }
    );
}

#[test]
fn system_message_channels_build() {
    let none = SystemMessageChannels {
        user_joined: None,
        user_left: None,
        user_kicked: None,
        user_banned: None,
    };
    assert_eq!(SystemMessageChannels::default(), none);
    assert_eq!(
        SystemMessageChannels::default().user_joined(&s("a")),
        SystemMessageChannels { user_joined: Some(s("a")), ..none.clone() }
    );
    assert_eq!(
        SystemMessageChannels::default()
            .user_joined(&s("a"))
            .user_left(&s("b"))
            .user_kicked(&s("c"))
            .user_banned(&s("d")),
        SystemMessageChannels {
            user_joined: Some(s("a")),
            user_left: Some(s("b")),
            user_kicked: Some(s("c")),
            user_banned: Some(s("d")),
        }
    );
}

#[test]
fn member_id_from_its_parts() {
    assert_eq!(
        MemberID::from((&s("server"), &s("user"))),
        MemberID { server_id: s("server"), user_id: s("user") }
    );
}

#[test]
fn ban_holds_its_reason() {
    assert_eq!(CreateBan::new(Some("spam")), CreateBan { reason: Some(s("spam")) });
    assert_eq!(CreateBan::new(None), CreateBan { reason: None });
}

#[test]
fn server_members_pair_up() {
    let listed = ServerMembers {
        members: vec![member("a"), member("b"), member("c")],
        users: vec![user("a", None), user("b", None)],
    };
    assert_eq!(
        listed.pairs(),
        vec![(member("a"), user("a", None)), (member("b"), user("b", None))]
    );
    let listed = ServerMembers { members: vec![], users: vec![user("a", None)] };
    assert_eq!(listed.pairs(), vec![]);
}

#[test]
fn flags_are_sets_of_bits() {
    assert_eq!(UserFlags::empty().bits(), 0);
    assert_eq!(UserFlags::ALL, 7);
    assert_eq!(UserFlags::from_bits_truncate(0xFF), UserFlags { bits: 7 });
    let flags = UserFlags::from_bits_truncate(UserFlags::SUSPENDED | UserFlags::BANNED);
    assert!(flags.contains(UserFlags::SUSPENDED));
    assert!(flags.contains(UserFlags::BANNED));
    assert!(!flags.contains(UserFlags::DELETED));
    assert!(flags.contains(UserFlags::SUSPENDED | UserFlags::BANNED));
    assert!(!flags.contains(UserFlags::ALL));
    assert!(flags.contains(0));

    assert_eq!(ServerFlags::ALL, 3);
    assert_eq!(ServerFlags::from_bits_truncate(6).bits(), 2);
    assert!(ServerFlags { bits: 2 }.contains(ServerFlags::VERIFIED_COMMUNITY_SERVER));
    assert!(!ServerFlags { bits: 2 }.contains(ServerFlags::OFFICIAL_REVOLT_SERVER));
    assert_eq!(ServerFlags::empty(), ServerFlags { bits: 0 });

    assert_eq!(RevoltPermission::MANAGE_CHANNEL, 1);
    assert_eq!(RevoltPermission::MOVE_MEMBERS, 34359738368);
    assert_eq!(RevoltPermission::ALL, 68718444511);
    assert_eq!(RevoltPermission::from_bits_truncate(32 | 64).bits(), 64);
    let permissions =
        RevoltPermission::from_bits_truncate(RevoltPermission::SPEAK | RevoltPermission::VIDEO);
    assert!(permissions.contains(RevoltPermission::VIDEO));
    assert!(!permissions.contains(RevoltPermission::CONNECT));
    assert_eq!(RevoltPermission::empty().bits(), 0);
}
