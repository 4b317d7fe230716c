use resvolt::builders::{
    ChannelType, CreateChannel, CreateEmbed, CreateMessage, EditChannel, EditMessage, Reply,
};
use resvolt::models::events::ChannelField;
use resvolt::models::Masquerade;

fn s(text: &str) -> String {
    text.to_string()
}

#[test]
fn create_channel_builds() {
    assert_eq!(
        CreateChannel::text("general"),
        CreateChannel { kind: ChannelType::Text, name: s("general"), description: None, nsfw: false }
    );
    assert_eq!(
        CreateChannel::voice("talk").description("to talk").nsfw(true),
        CreateChannel {
            kind: ChannelType::Voice,
            name: s("talk"),
            description: Some(s("to talk")),
            nsfw: true,
        }
    );
}

#[test]
fn edit_channel_builds() {
    let empty =
        EditChannel { name: None, description: None, icon: None, nsfw: None, remove: None };
    assert_eq!(EditChannel::new(), empty);
    assert_eq!(EditChannel::default(), empty);
    assert_eq!(
        EditChannel::new()
            .name("n")
            .description("d")
            .icon(&s("i"))
            .nsfw(false)
            .remove(ChannelField::Icon),
        EditChannel {
            name: Some(s("n")),
            description: Some(s("d")),
            icon: Some(s("i")),
            nsfw: Some(false),
            remove: Some(ChannelField::Icon),
        }
    );
    assert_eq!(EditChannel::new().nsfw(true), EditChannel { nsfw: Some(true), ..empty });
}

#[test]
fn create_message_builds() {
    assert_eq!(
        CreateMessage::new("hi"),
        CreateMessage {
            content: s("hi"),
            attachments: vec![],
            replies: vec![],
            embeds: vec![],
            masquerade: None,
        }
    );
    let masquerade = Masquerade { name: Some(s("mask")), avatar: None };
    let built = CreateMessage::new("hi")
        .attachment(&s("a1"))
        .attachment(&s("a2"))
        .reply(&s("m1"), true)
        .reply(&s("m2"), false)
        .embed(|embed| CreateEmbed { title: Some(s("t")), ..embed })
        .masquerade(masquerade.clone());
    assert_eq!(
        built,
        CreateMessage {
            content: s("hi"),
            attachments: vec![s("a1"), s("a2")],
            replies: vec![
                Reply { id: s("m1"), mention: true },
                Reply { id: s("m2"), mention: false },
            ],
            embeds: vec![CreateEmbed { url: None, title: Some(s("t")), description: None }],
            masquerade: Some(masquerade),
        }
    );
}

#[test]
fn edit_message_builds() {
    assert_eq!(EditMessage::new(), EditMessage { content: None, embeds: vec![] });
    assert_eq!(EditMessage::default(), EditMessage::new());
    assert_eq!(
        EditMessage::new().content("new").embed(|embed| embed).embed(|embed| CreateEmbed {
            url: Some(s("u")),
            ..embed
        }),
        EditMessage {
            content: Some(s("new")),
            embeds: vec![
                CreateEmbed::default(),
                CreateEmbed { url: Some(s("u")), title: None, description: None },
            ],
        }
    );
    assert_eq!(CreateEmbed::default(), CreateEmbed { url: None, title: None, description: None });
}
