use vstd::prelude::*;
use crate::models::message::Masquerade;

verus! {

/// Builder for an embed to include in a message.
#[derive(Debug, Clone, PartialEq, Eq)]
pub struct CreateEmbed {
    pub url: Option<String>,
    pub title: Option<String>,
    pub description: Option<String>,
}

impl CreateEmbed {
    /// The embed that holds nothing.
    pub open spec fn empty() -> CreateEmbed {
        CreateEmbed { url: None, title: None, description: None }
    }
}

impl Default for CreateEmbed {
    fn default() -> (r: Self)
        ensures
            r == CreateEmbed::empty(),
    {
        CreateEmbed { url: None, title: None, description: None }
    }
}

/// A message that a new message replies to.
#[derive(Debug, Clone, PartialEq, Eq)]
pub struct Reply {
    pub id: String,
    pub mention: bool,
}

/// Builder for create a message.
#[derive(Debug, Clone, PartialEq, Eq)]
pub struct CreateMessage {
    pub content: String,
    pub attachments: Vec<String>,
    pub replies: Vec<Reply>,
    pub embeds: Vec<CreateEmbed>,
    pub masquerade: Option<Masquerade>,
}

impl CreateMessage {
    /// Creates a new builder.
    pub fn new(content: &str) -> (r: Self)
        ensures
            r.content@ == content@,
            r.attachments@.len() == 0,
            r.replies@.len() == 0,
            r.embeds@.len() == 0,
            r.masquerade is None,
    {
        CreateMessage {
            content: content.to_owned(),
            attachments: Vec::new(),
            replies: Vec::new(),
            embeds: Vec::new(),
            masquerade: None,
        }
    }

    /// Set a attachment to include in the message.
    pub fn attachment(self, id: &String) -> (r: Self)
        ensures
            r.attachments@ == self.attachments@.push(*id),
            r.content == self.content,
            r.replies == self.replies,
            r.embeds == self.embeds,
            r.masquerade == self.masquerade,
    {
        let mut builder = self;
        builder.attachments.push(id.clone());
        builder
    }

    /// Set a message to reply to.
    pub fn reply(self, id: &String, mention: bool) -> (r: Self)
        ensures
            r.replies@ == self.replies@.push(Reply { id: *id, mention }),
            r.content == self.content,
            r.attachments == self.attachments,
            r.embeds == self.embeds,
            r.masquerade == self.masquerade,
    {
        let mut builder = self;
        builder.replies.push(Reply { id: id.clone(), mention });
        builder
    }

    /// Set a embed to include in the message: what `build` makes of an empty embed.
    pub fn embed(self, build: impl Fn(CreateEmbed) -> CreateEmbed) -> (r: Self)
        requires
            build.requires((CreateEmbed::empty(),)),
        ensures
            r.embeds@.len() == self.embeds@.len() + 1,
            r.embeds@.drop_last() == self.embeds@,
            build.ensures((CreateEmbed::empty(),), r.embeds@.last()),
            r.content == self.content,
            r.attachments == self.attachments,
            r.replies == self.replies,
            r.masquerade == self.masquerade,
    {
        let mut builder = self;
        let embed = build(CreateEmbed::default());
        builder.embeds.push(embed);
        assert(builder.embeds@.drop_last() =~= self.embeds@);
        builder
    }

    /// Set the masquerade.
    pub fn masquerade(self, masquerade: Masquerade) -> (r: Self)
        ensures
            r == (CreateMessage { masquerade: Some(masquerade), ..self }),
    {
        let mut builder = self;
        builder.masquerade = Some(masquerade);
        builder
    }
}

/// Builder for edit a message.
#[derive(Debug, Clone, PartialEq, Eq)]
pub struct EditMessage {
    pub content: Option<String>,
    pub embeds: Vec<CreateEmbed>,
}

impl EditMessage {
    /// Creates a new builder.
    pub fn new() -> (r: Self)
        ensures
            r.content is None,
            r.embeds@.len() == 0,
    {
        EditMessage { content: None, embeds: Vec::new() }
    }

    /// Set the content.
    pub fn content(self, content: &str) -> (r: Self)
        ensures
            r.content.deep_view() == Some(content@),
            r.embeds == self.embeds,
    {
        let mut builder = self;
        builder.content = Some(content.to_owned());
        builder
    }

    /// Set a embed to include in the message: what `build` makes of an empty embed.
    pub fn embed(self, build: impl Fn(CreateEmbed) -> CreateEmbed) -> (r: Self)
        requires
            build.requires((CreateEmbed::empty(),)),
        ensures
            r.embeds@.len() == self.embeds@.len() + 1,
            r.embeds@.drop_last() == self.embeds@,
            build.ensures((CreateEmbed::empty(),), r.embeds@.last()),
            r.content == self.content,
    {
        let mut builder = self;
        let embed = build(CreateEmbed::default());
        builder.embeds.push(embed);
        assert(builder.embeds@.drop_last() =~= self.embeds@);
        builder
    }
}

impl Default for EditMessage {
    fn default() -> (r: Self)
        ensures
            r.content is None,
            r.embeds@.len() == 0,
    {
        EditMessage::new()
    }
}

} // verus!
