use resvolt::builders::{CreateMessage, Reply};
use resvolt::cache::Cache;
use resvolt::http::{Fetch, HttpClient, Method, RateLimit, Request, RouteClass};
use resvolt::models::events::{
    ChannelAckEvent, ChannelGroupJoinEvent, MessageDeleteEvent, MessageUpdateEvent,
    PartialMessage, ReadyEvent, ServerEvent, ServerMemberJoinEvent, ServerMemberUpdateEvent,
    PartialMember, ServerRoleDeleteEvent, UserUpdateEvent, PartialUser,
};
use resvolt::models::{
    Channel, Content, CreateBan, DirectMessageChannel, GroupChannel, Member, MemberID, Message,
    MessageEdited, Server, ServerFlags, SystemMessageChannels, TextChannel, User, VoiceChannel,
};

fn s(text: &str) -> String {
    text.to_string()
}

fn user(id: &str) -> User {
    User {
        id: s(id),
        username: s("name"),
        avatar: None,
        status: None,
        badges: 0,
        flags: 0,
        online: false,
        bot: None,
    }
}

fn server(id: &str) -> Server {
    Server {
        id: s(id),
        owner_id: s("o"),
        name: s("n"),
        description: None,
        channels: vec![],
        categories: vec![],
        system_messages: SystemMessageChannels::default(),
        icon: None,
        banner: None,
        flags: ServerFlags { bits: 0 },
        nsfw: false,
    }
}

fn member(server_id: &str, user_id: &str) -> Member {
    Member {
        id: MemberID { server_id: s(server_id), user_id: s(user_id) },
        nickname: None,
        avatar: None,
        roles: vec![],
    }
}

fn text_channel(id: &str) -> TextChannel {
    TextChannel {
        id: s(id),
        server_id: s("s1"),
        name: s("n"),
        description: None,
        icon: None,
        last_message_id: None,
        nsfw: false,
    }
}

fn message() -> Message {
    Message {
        id: s("m1"),
        nonce: None,
        channel_id: s("c1"),
        author_id: s("u1"),
        content: Content::Text(s("t")),
        attachments: vec![],
        embeds: vec![],
        mentions: vec![],
        replies: vec![],
        masquerade: None,
        edited: None,
    }
}

fn cache() -> Cache {
    let mut cache = Cache::new();
    cache.update(&ServerEvent::Ready(ReadyEvent {
        users: vec![user("u1")],
        servers: vec![server("s1")],
        channels: vec![Channel::Text(text_channel("c1"))],
        members: vec![member("s1", "u1")],
    }));
    cache
}

fn http() -> HttpClient {
    HttpClient::new(user("bot"))
}

fn request(method: Method, path: &str, limit: RateLimit) -> Request {
    Request { method, url: format!("https://api.revolt.chat/{}", path), limit }
}

fn get(path: &str, limit: RateLimit) -> Request {
    request(Method::Get, path, limit)
}

const CHANNELS: RateLimit = RateLimit::Route(RouteClass::Channels);
const SERVERS: RateLimit = RateLimit::Route(RouteClass::Servers);

#[test]
fn fetch_finds_what_the_cache_holds() {
    let (cache, http) = (cache(), http());
    assert_eq!(User::fetch(&cache.users, &http, &s("u1")), Fetch::Cached(user("u1")));
    assert_eq!(
        Channel::fetch(&cache.channels, &http, &s("c1")),
        Fetch::Cached(Channel::Text(text_channel("c1")))
    );
    assert_eq!(Server::fetch(&cache.servers, &http, &s("s1")), Fetch::Cached(server("s1")));
    assert_eq!(
        Member::fetch(&cache.members, &http, &s("s1"), &s("u1")),
        Fetch::Cached(member("s1", "u1"))
    );
}

#[test]
fn fetch_asks_for_what_the_cache_lacks_and_stores_nothing() {
    let (cache, http) = (cache(), http());
    assert_eq!(
        User::fetch(&cache.users, &http, &s("u2")),
        Fetch::Request(get("users/u2", RateLimit::Shared))
    );
    assert_eq!(
        Channel::fetch(&cache.channels, &http, &s("c2")),
        Fetch::Request(get("channels/c2", CHANNELS))
    );
    assert_eq!(Server::fetch(&cache.servers, &http, &s("s2")), Fetch::Request(get("servers/s2", SERVERS)));
    assert_eq!(
        Member::fetch(&cache.members, &http, &s("s1"), &s("u2")),
        Fetch::Request(get("servers/s1/members/u2", SERVERS))
    );
    assert_eq!(
        Member::fetch(&cache.members, &http, &s("u1"), &s("s1")),
        Fetch::Request(get("servers/u1/members/s1", SERVERS))
    );
    assert_eq!(cache.user(&s("u2")), None);
    assert_eq!(cache.users().len(), 1);
    assert_eq!(cache.members().len(), 1);
}

#[test]
fn users_plan_their_requests() {
    let http = http();
    assert_eq!(user("u1").profile(&http), get("users/u1/profile", RateLimit::Shared));
    assert_eq!(user("u1").dm(&http), get("users/u1/dm", RateLimit::Shared));
    assert_eq!(DirectMessageChannel::open(&http, &s("u1")), get("users/u1/dm", RateLimit::Shared));
}

#[test]
fn channels_plan_their_requests() {
    let http = http();
    let text = text_channel("c1");
    assert_eq!(text.send(&http), request(Method::Post, "channels/c1/messages", RateLimit::Messages));
    assert_eq!(text.edit(&http), request(Method::Patch, "channels/c1", CHANNELS));
    assert_eq!(text.delete(&http), request(Method::Delete, "channels/c1", CHANNELS));
    assert_eq!(Channel::edit(&http, &s("c9")), request(Method::Patch, "channels/c9", CHANNELS));
    assert_eq!(Channel::delete(&http, &s("c9")), request(Method::Delete, "channels/c9", CHANNELS));

    let voice = VoiceChannel {
        id: s("v1"),
        server_id: s("s1"),
        name: s("n"),
        description: None,
        icon: None,
        nsfw: false,
    };
    assert_eq!(voice.edit(&http), request(Method::Patch, "channels/v1", CHANNELS));
    assert_eq!(voice.delete(&http), request(Method::Delete, "channels/v1", CHANNELS));

    let group = GroupChannel {
        id: s("g1"),
        owner_id: s("o"),
        name: s("n"),
        description: None,
        recipients: vec![],
        icon: None,
        last_message_id: None,
        nsfw: false,
    };
    assert_eq!(group.members(&http), get("channels/g1/members", CHANNELS));
    assert_eq!(group.send(&http), request(Method::Post, "channels/g1/messages", RateLimit::Messages));
    assert_eq!(group.edit(&http), request(Method::Patch, "channels/g1", CHANNELS));
    assert_eq!(group.leave(&http), request(Method::Delete, "channels/g1", CHANNELS));

    let dm = DirectMessageChannel {
        id: s("d1"),
        active: true,
        recipients: [s("a"), s("b")],
        last_message_id: None,
    };
    assert_eq!(dm.send(&http), request(Method::Post, "channels/d1/messages", RateLimit::Messages));
    assert_eq!(dm.close(&http), request(Method::Delete, "channels/d1", CHANNELS));
}

#[test]
fn messages_plan_their_requests() {
    let http = http();
    assert_eq!(
        Message::fetch(&http, &s("c1"), &s("m1")),
        get("channels/c1/messages/m1", CHANNELS)
    );
    assert_eq!(
        Message::create(&http, &s("c1")),
        request(Method::Post, "channels/c1/messages", RateLimit::Messages)
    );
    assert_eq!(
        message().create_from_self(&http),
        request(Method::Post, "channels/c1/messages", RateLimit::Messages)
    );
    assert_eq!(message().edit(&http), request(Method::Patch, "channels/c1/messages/m1", CHANNELS));
    assert_eq!(
        message().delete(&http),
        request(Method::Delete, "channels/c1/messages/m1", CHANNELS)
    );
    let (planned, body) = message().reply(&http, CreateMessage::new("pong"), true);
    assert_eq!(planned, request(Method::Post, "channels/c1/messages", RateLimit::Messages));
    assert_eq!(
        body,
        CreateMessage {
            content: s("pong"),
            attachments: vec![],
            replies: vec![Reply { id: s("m1"), mention: true }],
            embeds: vec![],
            masquerade: None,
        }
    );
}

#[test]
fn members_and_servers_plan_their_requests() {
    let http = http();
    let member = member("s1", "u1");
    assert_eq!(member.edit(&http), request(Method::Patch, "servers/s1/members/u1", SERVERS));
    assert_eq!(member.kick(&http), request(Method::Delete, "servers/s1/members/u1", SERVERS));
    assert_eq!(
        member.ban(&http, Some("spam")),
        (request(Method::Put, "servers/s1/bans/u1", SERVERS), CreateBan { reason: Some(s("spam")) })
    );
    assert_eq!(member.ban(&http, None).1, CreateBan { reason: None });

    let server = server("s1");
    assert_eq!(server.members(&http), get("servers/s1/members", SERVERS));
    assert_eq!(server.edit(&http), request(Method::Patch, "servers/s1", SERVERS));
    assert_eq!(server.create_channel(&http), request(Method::Post, "servers/s1/channels", SERVERS));
    assert_eq!(server.leave(&http), request(Method::Delete, "servers/s1", SERVERS));
    assert_eq!(
        server.unban(&http, &s("u2")),
        request(Method::Delete, "servers/s1/bans/u2", SERVERS)
    );
}

#[test]
fn events_look_up_what_they_speak_of() {
    let (cache, http) = (cache(), http());
    let ack = ChannelAckEvent { channel_id: s("c1"), user_id: s("u2"), message_id: s("m1") };
    assert_eq!(ack.channel(&cache.channels, &http), Fetch::Cached(Channel::Text(text_channel("c1"))));
    assert_eq!(ack.user(&cache.users, &http), Fetch::Request(get("users/u2", RateLimit::Shared)));
    assert_eq!(ack.message(&http), get("channels/c1/messages/m1", CHANNELS));

    let join = ChannelGroupJoinEvent { channel_id: s("c2"), user_id: s("u1") };
    assert_eq!(join.channel(&cache.channels, &http), Fetch::Request(get("channels/c2", CHANNELS)));
    assert_eq!(join.user(&cache.users, &http), Fetch::Cached(user("u1")));

    let deleted = MessageDeleteEvent { message_id: s("m1"), channel_id: s("c1") };
    assert_eq!(deleted.channel(&cache.channels, &http), Fetch::Cached(Channel::Text(text_channel("c1"))));

    let updated = MessageUpdateEvent {
        message_id: s("m2"),
        channel_id: s("c3"),
        data: PartialMessage {
            content: None,
            embeds: vec![],
            edited: MessageEdited { date: s("d") },
        },
    };
    assert_eq!(updated.message(&http), get("channels/c3/messages/m2", CHANNELS));
    assert_eq!(updated.channel(&cache.channels, &http), Fetch::Request(get("channels/c3", CHANNELS)));

    let joined = ServerMemberJoinEvent { server_id: s("s1"), user_id: s("u1") };
    assert_eq!(joined.member(&cache.members, &http), Fetch::Cached(member("s1", "u1")));
    assert_eq!(joined.server(&cache.servers, &http), Fetch::Cached(server("s1")));
    assert_eq!(joined.user(&cache.users, &http), Fetch::Cached(user("u1")));

    let member_update = ServerMemberUpdateEvent {
        member_id: MemberID { server_id: s("s2"), user_id: s("u1") },
        data: PartialMember { nickname: None, avatar: None, roles: vec![] },
        clear: None,
    };
    assert_eq!(
        member_update.member(&cache.members, &http),
        Fetch::Request(get("servers/s2/members/u1", SERVERS))
    );
    assert_eq!(member_update.server(&cache.servers, &http), Fetch::Request(get("servers/s2", SERVERS)));
    assert_eq!(member_update.user(&cache.users, &http), Fetch::Cached(user("u1")));

    let role = ServerRoleDeleteEvent { server_id: s("s1"), role_id: s("r") };
    assert_eq!(role.server(&cache.servers, &http), Fetch::Cached(server("s1")));

    let user_update = UserUpdateEvent {
        user_id: s("u1"),
        data: PartialUser { status: None, profile: None, avatar: None, online: None },
        clear: None,
    };
    assert_eq!(user_update.user(&cache.users, &http), Fetch::Cached(user("u1")));
}
