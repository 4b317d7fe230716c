use vstd::prelude::*;
use crate::models::events::ChannelField;

verus! {

/// The kind of a server channel.
#[derive(Debug, Clone, Copy, PartialEq, Eq)]
pub enum ChannelType {
    Text,
    Voice,
}

/// Builder for create a server channel.
#[derive(Debug, Clone, PartialEq, Eq)]
pub struct CreateChannel {
    pub kind: ChannelType,
    pub name: String,
    pub description: Option<String>,
    pub nsfw: bool,
}

impl CreateChannel {
    /// Creates a new builder with `Text` channel type.
    pub fn text(name: &str) -> (r: Self)
        ensures
            r.kind == ChannelType::Text,
            r.name@ == name@,
            r.description is None,
            !r.nsfw,
    {
        CreateChannel {
            kind: ChannelType::Text,
            name: name.to_owned(),
            description: None,
            nsfw: false,
        }
    }

    /// Creates a new builder with `Voice` channel type.
    pub fn voice(name: &str) -> (r: Self)
        ensures
            r.kind == ChannelType::Voice,
            r.name@ == name@,
            r.description is None,
            !r.nsfw,
    {
        CreateChannel {
            kind: ChannelType::Voice,
            name: name.to_owned(),
            description: None,
            nsfw: false,
        }
    }

    /// Set the description.
    pub fn description(self, description: &str) -> (r: Self)
        ensures
            r.description.deep_view() == Some(description@),
            r.kind == self.kind,
            r.name == self.name,
            r.nsfw == self.nsfw,
    {
        let mut builder = self;
        builder.description = Some(description.to_owned());
        builder
    }

    /// Set whether channel is not safe for work.
    pub fn nsfw(self, nsfw: bool) -> (r: Self)
        ensures
            r == (CreateChannel { nsfw, ..self }),
    {
        let mut builder = self;
        builder.nsfw = nsfw;
        builder
    }
}

/// Builder for edit a channel.
#[derive(Debug, Clone, PartialEq, Eq)]
pub struct EditChannel {
    pub name: Option<String>,
    pub description: Option<String>,
    pub icon: Option<String>,
    pub nsfw: Option<bool>,
    pub remove: Option<ChannelField>,
}

impl EditChannel {
    /// The builder that edits nothing.
    pub open spec fn empty() -> EditChannel {
        EditChannel { name: None, description: None, icon: None, nsfw: None, remove: None }
    }

    /// Creates a new builder.
    pub fn new() -> (r: Self)
        ensures
            r == EditChannel::empty(),
    {
        EditChannel { name: None, description: None, icon: None, nsfw: None, remove: None }
    }

    /// Set the name.
    pub fn name(self, name: &str) -> (r: Self)
        ensures
            r.name.deep_view() == Some(name@),
            r.description == self.description,
            r.icon == self.icon,
            r.nsfw == self.nsfw,
            r.remove == self.remove,
    {
        let mut builder = self;
        builder.name = Some(name.to_owned());
        builder
    }

    /// Set the description.
    pub fn description(self, description: &str) -> (r: Self)
        ensures
            r.description.deep_view() == Some(description@),
            r.name == self.name,
            r.icon == self.icon,
            r.nsfw == self.nsfw,
            r.remove == self.remove,
    {
        let mut builder = self;
        builder.description = Some(description.to_owned());
        builder
    }

    /// Set the icon.
    pub fn icon(self, id: &String) -> (r: Self)
        ensures
            r.icon.deep_view() == Some(id@),
            r.name == self.name,
            r.description == self.description,
            r.nsfw == self.nsfw,
            r.remove == self.remove,
    {
        let mut builder = self;
        builder.icon = Some(id.clone());
        builder
    }

    /// Set whether channel is not safe for work.
    pub fn nsfw(self, nsfw: bool) -> (r: Self)
        ensures
            r == (EditChannel { nsfw: Some(nsfw), ..self }),
    {
        let mut builder = self;
        builder.nsfw = Some(nsfw);
        builder
    }

    /// Set a channel field to remove.
    pub fn remove(self, field: ChannelField) -> (r: Self)
        ensures
            r == (EditChannel { remove: Some(field), ..self }),
    {
        let mut builder = self;
        builder.remove = Some(field);
        builder
    }
}

impl Default for EditChannel {
    fn default() -> (r: Self)
        ensures
            r == EditChannel::empty(),
    {
        EditChannel::new()
    }
}

} // verus!
