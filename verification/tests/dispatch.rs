use resvolt::cache::Cache;
use resvolt::client::dispatch::parse_command;
use resvolt::client::{dispatch, handle_event, CommandRegistry, Dispatch, Execution, Handled};
use resvolt::error::{AuthenticationError, RSError};
use resvolt::models::events::{
    ChannelDeleteEvent, ChannelStartTypingEvent, ReadyEvent, ServerEvent, ServerMemberJoinEvent,
};
use resvolt::models::{Content, MemberID, Message, SystemMessage};

fn s(text: &str) -> String {
    text.to_string()
}

fn message(author: &str, content: Content) -> Message {
    Message {
        id: s("m1"),
        nonce: None,
        channel_id: s("c1"),
        author_id: s(author),
        content,
        attachments: vec![],
        embeds: vec![],
        mentions: vec![],
        replies: vec![],
        masquerade: None,
        edited: None,
    }
}

fn text(author: &str, text: &str) -> Message {
    message(author, Content::Text(s(text)))
}

#[test]
fn command_name_follows_the_prefix_in_the_first_word() {
    assert_eq!(parse_command("!ping", "!"), Some(s("ping")));
    assert_eq!(parse_command("  !ping now", "!"), Some(s("ping")));
    assert_eq!(parse_command("!", "!"), Some(s("")));
    assert_eq!(parse_command("ping", "!"), None);
    assert_eq!(parse_command("say !ping", "!"), None);
    assert_eq!(parse_command("", "!"), None);
    assert_eq!(parse_command("   ", "!"), None);
    assert_eq!(parse_command("bot:ping x", "bot:"), Some(s("ping")));
    assert_eq!(parse_command("bot", "bot:"), None);
    assert_eq!(parse_command("ping", ""), Some(s("ping")));
    assert_eq!(parse_command("", ""), None);
}

#[test]
fn ping_with_the_prefix_runs_the_command_and_no_callback() {
    let event = ServerEvent::Message(text("u1", "!ping"));
    assert_eq!(
        dispatch(event, "!", "bot"),
        Dispatch::Command { name: s("ping"), message: text("u1", "!ping") }
    );

    let mut registry: CommandRegistry<u32, u32> = CommandRegistry::new(s("!"));
    registry.register_command(s("ping"), 7);
    match registry.execute_command("ping") {
        Execution::Run(command) => assert_eq!(*command, 7),
        Execution::NotFound { .. } => panic!("the command is registered"),
    }
}

#[test]
fn unknown_command_goes_to_the_error_handler() {
    let event = ServerEvent::Message(text("u1", "!nope"));
    let name = match dispatch(event, "!", "bot") {
        Dispatch::Command { name, .. } => name,
        other => panic!("{:?}", other),
    };
    assert_eq!(name, "nope");

    let mut registry: CommandRegistry<u32, &str> = CommandRegistry::new(s("!"));
    registry.register_command(s("ping"), 7);
    match registry.execute_command(&name) {
        Execution::NotFound { error, handler } => {
            assert_eq!(error, RSError::CommandNotFound(s("Command 'nope' not found")));
            assert_eq!(handler, None);
        }
        Execution::Run(_) => panic!("no such command is registered"),
    }
    registry.set_error_handler("handler");
    match registry.execute_command(&name) {
        Execution::NotFound { error, handler } => {
            assert_eq!(error, RSError::CommandNotFound(s("Command 'nope' not found")));
            assert_eq!(handler, Some(&"handler"));
        }
        Execution::Run(_) => panic!("no such command is registered"),
    }
}

#[test]
fn own_message_never_reaches_the_callback() {
    assert_eq!(dispatch(ServerEvent::Message(text("bot", "hello")), "!", "bot"), Dispatch::Nothing);
    let system = message("bot", Content::SystemMessage(SystemMessage::UserJoined { id: s("u") }));
    assert_eq!(dispatch(ServerEvent::Message(system), "!", "bot"), Dispatch::Nothing);
    assert_eq!(
        dispatch(ServerEvent::Message(text("bot", "   ")), "!", "bot"),
        Dispatch::Nothing
    );
}

#[test]
fn own_message_can_still_ask_for_a_command() {
    assert_eq!(
        dispatch(ServerEvent::Message(text("bot", "!ping")), "!", "bot"),
        Dispatch::Command { name: s("ping"), message: text("bot", "!ping") }
    );
}

#[test]
fn other_messages_reach_the_callback() {
    let event = ServerEvent::Message(text("u1", "hello !ping"));
    assert_eq!(dispatch(event.clone(), "!", "bot"), Dispatch::Callback(event));
    let event = ServerEvent::Message(text("bots", "hello"));
    assert_eq!(dispatch(event.clone(), "!", "bot"), Dispatch::Callback(event));
    let event = ServerEvent::Message(text("u1", ""));
    assert_eq!(dispatch(event.clone(), "!", "bot"), Dispatch::Callback(event));
    let system = message(
        "u1",
        Content::SystemMessage(SystemMessage::Text { content: s("!ping") }),
    );
    let event = ServerEvent::Message(system);
    assert_eq!(dispatch(event.clone(), "!", "bot"), Dispatch::Callback(event));
}

#[test]
fn other_events_reach_their_callback() {
    let events = vec![
        ServerEvent::ChannelDelete(ChannelDeleteEvent { channel_id: s("c1") }),
        ServerEvent::ChannelStartTyping(ChannelStartTypingEvent {
            channel_id: s("c1"),
            user_id: s("bot"),
        }),
        ServerEvent::Ready(ReadyEvent {
            users: vec![],
            servers: vec![],
            channels: vec![],
            members: vec![],
        }),
    ];
    for event in events {
        assert_eq!(dispatch(event.clone(), "!", "bot"), Dispatch::Callback(event));
    }
}

#[test]
fn frames_of_the_protocol_reach_nothing() {
    assert_eq!(dispatch(ServerEvent::Authenticated, "!", "bot"), Dispatch::Nothing);
    assert_eq!(dispatch(ServerEvent::Pong { data: 1 }, "!", "bot"), Dispatch::Nothing);
    assert_eq!(
        dispatch(ServerEvent::Error { error: AuthenticationError::LabelMe }, "!", "bot"),
        Dispatch::Nothing
    );
}

#[test]
fn registry_keeps_one_command_for_each_name() {
    let mut registry: CommandRegistry<&str, ()> = CommandRegistry::new(s("!"));
    assert_eq!(registry.prefix(), "!");
    registry.register_command(s("a"), "first a");
    registry.register_command(s("b"), "b");
    registry.register_command(s("a"), "second a");
    registry.register_command(s("c"), "c");
    for (name, expected) in [("a", "second a"), ("b", "b"), ("c", "c")] {
        match registry.execute_command(name) {
            Execution::Run(command) => assert_eq!(*command, expected),
            Execution::NotFound { .. } => panic!("{} is registered", name),
        }
    }
    assert!(matches!(registry.execute_command("d"), Execution::NotFound { .. }));
    assert!(matches!(registry.execute_command(""), Execution::NotFound { .. }));
    assert_eq!(registry.prefix(), "!");
}

#[test]
fn errors_are_dropped_without_an_error_handler() {
    let mut registry: CommandRegistry<(), &str> = CommandRegistry::new(s("!"));
    assert_eq!(registry.handle_error(), Err(RSError::ErrorHandlerNotSet));
    registry.set_error_handler("first");
    assert_eq!(registry.handle_error(), Ok(&"first"));
    registry.set_error_handler("second");
    assert_eq!(registry.handle_error(), Ok(&"second"));
}

#[test]
fn the_cache_takes_note_before_the_event_is_handed_on() {
    let mut cache = Cache::new();
    let event = ServerEvent::ServerMemberJoin(ServerMemberJoinEvent {
        server_id: s("s1"),
        user_id: s("u1"),
    });
    assert_eq!(
        handle_event(&mut cache, event.clone(), "!", "bot"),
        Handled {
            dispatch: Dispatch::Callback(event),
            fetch: Some(MemberID { server_id: s("s1"), user_id: s("u1") }),
        }
    );

    let handled = handle_event(&mut cache, ServerEvent::Message(text("bot", "hi")), "!", "bot");
    assert_eq!(handled, Handled { dispatch: Dispatch::Nothing, fetch: None });

    let created = resvolt::models::Channel::Voice(resvolt::models::VoiceChannel {
        id: s("c1"),
        server_id: s("s1"),
        name: s("voice"),
        description: None,
        icon: None,
        nsfw: false,
    });
    let event = ServerEvent::ChannelCreate(created.clone());
    let handled = handle_event(&mut cache, event.clone(), "!", "bot");
    assert_eq!(handled, Handled { dispatch: Dispatch::Callback(event), fetch: None });
    assert_eq!(cache.channel(&s("c1")), Some(created));
}
