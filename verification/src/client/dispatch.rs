//! Where an event received from the server goes: to a command, to a callback
//! of the event handler, or nowhere.

use vstd::prelude::*;
use crate::cache::Cache;
use crate::models::events::ServerEvent;
use crate::models::message::{Content, Message};
use crate::models::server::MemberID;
use crate::text::{equal, first_word, first_word_of, skip, starts_with};

verus! {

/// What an event received from the server calls for.
#[derive(Debug, PartialEq, Eq)]
pub enum Dispatch {
    /// A message asked for the command with this name. The command is handed
    /// a context that carries the message.
    Command { name: String, message: Message },
    /// The callback of the event handler that belongs to the event is invoked
    /// with it, in a context that carries no message.
    Callback(ServerEvent),
    /// Nothing is invoked.
    Nothing,
}

/// The name of the command that a text asks for: what follows the prefix in
/// the first word of the text, where that word begins with the prefix.
pub open spec fn command_name(text: Seq<char>, prefix: Seq<char>) -> Option<Seq<char>> {
    match first_word_of(text) {
        Some(word) => if prefix.is_prefix_of(word) {
            Some(word.skip(prefix.len() as int))
        } else {
            None
        },
        None => None,
    }
}

/// The name of the command that an event asks for: only a message whose
/// content is text can ask for one.
pub open spec fn command_of(event: ServerEvent, prefix: Seq<char>) -> Option<Seq<char>> {
    match event {
        ServerEvent::Message(message) => match message.content {
            Content::Text(text) => command_name(text@, prefix),
            Content::SystemMessage(_) => None,
        },
        _ => None,
    }
}

/// Whether the event handler has a callback to invoke for an event. It has
/// none for the frames of the protocol itself, and a message of the bot's own
/// never reaches it.
pub open spec fn has_callback(event: ServerEvent, bot_id: Seq<char>) -> bool {
    match event {
        ServerEvent::Error { .. } => false,
        ServerEvent::Authenticated => false,
        ServerEvent::Pong { .. } => false,
        ServerEvent::Message(message) => message.author_id@ != bot_id,
        _ => true,
    }
}

/// The name of the command that a text asks for.
pub fn parse_command(text: &str, prefix: &str) -> (r: Option<String>)
    ensures
        r.deep_view() == command_name(text@, prefix@),
{
    match first_word(text) {
        Some(word) => {
            if starts_with(word.as_str(), prefix) {
                let n = prefix.unicode_len();
                Some(skip(word.as_str(), n))
            } else {
                None
            }
        },
        None => None,
    }
}

/// Decides what an event received from the server calls for. `prefix` is the
/// command prefix of the client, `bot_id` the id of the user it runs as.
pub fn dispatch(event: ServerEvent, prefix: &str, bot_id: &str) -> (r: Dispatch)
    ensures
        (match r {
            Dispatch::Command { name, message } => event == ServerEvent::Message(message)
                && command_of(event, prefix@) == Some(name@),
            Dispatch::Callback(passed) => passed == event && command_of(event, prefix@) is None
                && has_callback(event, bot_id@),
            Dispatch::Nothing => command_of(event, prefix@) is None && !has_callback(
                event,
                bot_id@,
            ),
        }),
{
    match event {
        ServerEvent::Message(message) => {
            let name = match &message.content {
                Content::Text(text) => parse_command(text.as_str(), prefix),
                Content::SystemMessage(_) => None,
            };
            match name {
                Some(name) => Dispatch::Command { name, message },
                None => {
                    if equal(message.author_id.as_str(), bot_id) {
                        Dispatch::Nothing
                    } else {
                        Dispatch::Callback(ServerEvent::Message(message))
                    }
                },
            }
        },
        ServerEvent::Error { error } => Dispatch::Nothing,
        ServerEvent::Authenticated => Dispatch::Nothing,
        ServerEvent::Pong { data } => Dispatch::Nothing,
        other => Dispatch::Callback(other),
    }
}

/// What is to be done with an event received from the server, after the
/// cache has taken note of it.
#[derive(Debug, PartialEq, Eq)]
pub struct Handled {
    /// What the event calls for.
    pub dispatch: Dispatch,
    /// The member to fetch and to hand to the cache, if the event tells of one
    /// that the cache does not hold.
    pub fetch: Option<MemberID>,
}

/// Handles an event received from the server: the cache takes note of it
/// first, so that whatever the event calls for finds the cache up to date,
/// and then it is decided what the event calls for.
pub fn handle_event(cache: &mut Cache, event: ServerEvent, prefix: &str, bot_id: &str) -> (r:
    Handled)
    requires
        old(cache).wf(),
    ensures
        final(cache).wf(),
        final(cache)@ == old(cache)@.update(event),
        r.fetch.deep_view() == old(cache)@.member_to_fetch(event),
        (match r.dispatch {
            Dispatch::Command { name, message } => event == ServerEvent::Message(message)
                && command_of(event, prefix@) == Some(name@),
            Dispatch::Callback(passed) => passed == event && command_of(event, prefix@) is None
                && has_callback(event, bot_id@),
            Dispatch::Nothing => command_of(event, prefix@) is None && !has_callback(
                event,
                bot_id@,
            ),
        }),
{
    let fetch = cache.update(&event);
    Handled { dispatch: dispatch(event, prefix, bot_id), fetch }
}

} // verus!
