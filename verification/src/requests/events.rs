//! Looking up what an event speaks of.

use vstd::prelude::*;
use crate::cache::{Channels, Members, Servers, Users};
use crate::http::{planned, Fetch, HttpClient, Method, Request};
use crate::models::channel::Channel;
use crate::models::events::{
    ChannelAckEvent, ChannelGroupJoinEvent, ChannelGroupLeaveEvent, ChannelStartTypingEvent,
    ChannelStopTypingEvent, MessageDeleteEvent, MessageUpdateEvent, ServerMemberJoinEvent,
    ServerMemberLeaveEvent, ServerMemberUpdateEvent, ServerRoleDeleteEvent,
    ServerRoleUpdateEvent, ServerUpdateEvent, UserUpdateEvent,
};
use crate::models::message::Message;
use crate::models::server::{Member, MemberIDView, Server};
use crate::models::user::User;

verus! {

impl ChannelAckEvent {
    /// The channel, from the cache or the request for it.
    pub fn channel(&self, channels: &Channels, http: &HttpClient) -> (r: Fetch<Channel>)
        ensures
            (match channels@.get(self.channel_id@) {
                Some(stored) => r matches Fetch::Cached(found) && found.deep_view() == stored,
                None => r matches Fetch::Request(request) && planned(
                    request,
                    Method::Get,
                    "channels/"@ + self.channel_id@,
                ),
            }),
    {
        Channel::fetch(channels, http, &self.channel_id)
    }

    /// The user, from the cache or the request for it.
    pub fn user(&self, users: &Users, http: &HttpClient) -> (r: Fetch<User>)
        ensures
            (match users@.get(self.user_id@) {
                Some(stored) => r matches Fetch::Cached(found) && found.deep_view() == stored,
                None => r matches Fetch::Request(request) && planned(
                    request,
                    Method::Get,
                    "users/"@ + self.user_id@,
                ),
            }),
    {
        User::fetch(users, http, &self.user_id)
    }

    /// The request for the message.
    pub fn message(&self, http: &HttpClient) -> (r: Request)
        ensures
            planned(r, Method::Get, "channels/"@ + self.channel_id@ + "/messages/"@ + self.message_id@),
    {
        Message::fetch(http, &self.channel_id, &self.message_id)
    }
}

impl ChannelGroupJoinEvent {
    /// The channel, from the cache or the request for it.
    pub fn channel(&self, channels: &Channels, http: &HttpClient) -> (r: Fetch<Channel>)
        ensures
            (match channels@.get(self.channel_id@) {
                Some(stored) => r matches Fetch::Cached(found) && found.deep_view() == stored,
                None => r matches Fetch::Request(request) && planned(
                    request,
                    Method::Get,
                    "channels/"@ + self.channel_id@,
                ),
            }),
    {
        Channel::fetch(channels, http, &self.channel_id)
    }

    /// The user, from the cache or the request for it.
    pub fn user(&self, users: &Users, http: &HttpClient) -> (r: Fetch<User>)
        ensures
            (match users@.get(self.user_id@) {
                Some(stored) => r matches Fetch::Cached(found) && found.deep_view() == stored,
                None => r matches Fetch::Request(request) && planned(
                    request,
                    Method::Get,
                    "users/"@ + self.user_id@,
                ),
            }),
    {
        User::fetch(users, http, &self.user_id)
    }
}

impl ChannelGroupLeaveEvent {
    /// The channel, from the cache or the request for it.
    pub fn channel(&self, channels: &Channels, http: &HttpClient) -> (r: Fetch<Channel>)
        ensures
            (match channels@.get(self.channel_id@) {
                Some(stored) => r matches Fetch::Cached(found) && found.deep_view() == stored,
                None => r matches Fetch::Request(request) && planned(
                    request,
                    Method::Get,
                    "channels/"@ + self.channel_id@,
                ),
            }),
    {
        Channel::fetch(channels, http, &self.channel_id)
    }

    /// The user, from the cache or the request for it.
    pub fn user(&self, users: &Users, http: &HttpClient) -> (r: Fetch<User>)
        ensures
            (match users@.get(self.user_id@) {
                Some(stored) => r matches Fetch::Cached(found) && found.deep_view() == stored,
                None => r matches Fetch::Request(request) && planned(
                    request,
                    Method::Get,
                    "users/"@ + self.user_id@,
                ),
            }),
    {
        User::fetch(users, http, &self.user_id)
    }
}

impl ChannelStartTypingEvent {
    /// The channel, from the cache or the request for it.
    pub fn channel(&self, channels: &Channels, http: &HttpClient) -> (r: Fetch<Channel>)
        ensures
            (match channels@.get(self.channel_id@) {
                Some(stored) => r matches Fetch::Cached(found) && found.deep_view() == stored,
                None => r matches Fetch::Request(request) && planned(
                    request,
                    Method::Get,
                    "channels/"@ + self.channel_id@,
                ),
            }),
    {
        Channel::fetch(channels, http, &self.channel_id)
    }

    /// The user, from the cache or the request for it.
    pub fn user(&self, users: &Users, http: &HttpClient) -> (r: Fetch<User>)
        ensures
            (match users@.get(self.user_id@) {
                Some(stored) => r matches Fetch::Cached(found) && found.deep_view() == stored,
                None => r matches Fetch::Request(request) && planned(
                    request,
                    Method::Get,
                    "users/"@ + self.user_id@,
                ),
            }),
    {
        User::fetch(users, http, &self.user_id)
    }
}

impl ChannelStopTypingEvent {
    /// The channel, from the cache or the request for it.
    pub fn channel(&self, channels: &Channels, http: &HttpClient) -> (r: Fetch<Channel>)
        ensures
            (match channels@.get(self.channel_id@) {
                Some(stored) => r matches Fetch::Cached(found) && found.deep_view() == stored,
                None => r matches Fetch::Request(request) && planned(
                    request,
                    Method::Get,
                    "channels/"@ + self.channel_id@,
                ),
            }),
    {
        Channel::fetch(channels, http, &self.channel_id)
    }

    /// The user, from the cache or the request for it.
    pub fn user(&self, users: &Users, http: &HttpClient) -> (r: Fetch<User>)
        ensures
            (match users@.get(self.user_id@) {
                Some(stored) => r matches Fetch::Cached(found) && found.deep_view() == stored,
                None => r matches Fetch::Request(request) && planned(
                    request,
                    Method::Get,
                    "users/"@ + self.user_id@,
                ),
            }),
    {
        User::fetch(users, http, &self.user_id)
    }
}

impl MessageDeleteEvent {
    /// The channel, from the cache or the request for it.
    pub fn channel(&self, channels: &Channels, http: &HttpClient) -> (r: Fetch<Channel>)
        ensures
            (match channels@.get(self.channel_id@) {
                Some(stored) => r matches Fetch::Cached(found) && found.deep_view() == stored,
                None => r matches Fetch::Request(request) && planned(
                    request,
                    Method::Get,
                    "channels/"@ + self.channel_id@,
                ),
            }),
    {
        Channel::fetch(channels, http, &self.channel_id)
    }
}

impl MessageUpdateEvent {
    /// The request for the message.
    pub fn message(&self, http: &HttpClient) -> (r: Request)
        ensures
            planned(r, Method::Get, "channels/"@ + self.channel_id@ + "/messages/"@ + self.message_id@),
    {
        Message::fetch(http, &self.channel_id, &self.message_id)
    }

    /// The channel, from the cache or the request for it.
    pub fn channel(&self, channels: &Channels, http: &HttpClient) -> (r: Fetch<Channel>)
        ensures
            (match channels@.get(self.channel_id@) {
                Some(stored) => r matches Fetch::Cached(found) && found.deep_view() == stored,
                None => r matches Fetch::Request(request) && planned(
                    request,
                    Method::Get,
                    "channels/"@ + self.channel_id@,
                ),
            }),
    {
        Channel::fetch(channels, http, &self.channel_id)
    }
}

impl ServerMemberJoinEvent {
    /// The member, from the cache or the request for it.
    pub fn member(&self, members: &Members, http: &HttpClient) -> (r: Fetch<Member>)
        ensures
            (match members@.get(MemberIDView { server_id: self.server_id@, user_id: self.user_id@ }) {
                Some(stored) => r matches Fetch::Cached(found) && found.deep_view() == stored,
                None => r matches Fetch::Request(request) && planned(
                    request,
                    Method::Get,
                    "servers/"@ + self.server_id@ + "/members/"@ + self.user_id@,
                ),
            }),
    {
        Member::fetch(members, http, &self.server_id, &self.user_id)
    }

    /// The server, from the cache or the request for it.
    pub fn server(&self, servers: &Servers, http: &HttpClient) -> (r: Fetch<Server>)
        ensures
            (match servers@.get(self.server_id@) {
                Some(stored) => r matches Fetch::Cached(found) && found.deep_view() == stored,
                None => r matches Fetch::Request(request) && planned(
                    request,
                    Method::Get,
                    "servers/"@ + self.server_id@,
                ),
            }),
    {
        Server::fetch(servers, http, &self.server_id)
    }

    /// The user, from the cache or the request for it.
    pub fn user(&self, users: &Users, http: &HttpClient) -> (r: Fetch<User>)
        ensures
            (match users@.get(self.user_id@) {
                Some(stored) => r matches Fetch::Cached(found) && found.deep_view() == stored,
                None => r matches Fetch::Request(request) && planned(
                    request,
                    Method::Get,
                    "users/"@ + self.user_id@,
                ),
            }),
    {
        User::fetch(users, http, &self.user_id)
    }
}

impl ServerMemberLeaveEvent {
    /// The server, from the cache or the request for it.
    pub fn server(&self, servers: &Servers, http: &HttpClient) -> (r: Fetch<Server>)
        ensures
            (match servers@.get(self.server_id@) {
                Some(stored) => r matches Fetch::Cached(found) && found.deep_view() == stored,
                None => r matches Fetch::Request(request) && planned(
                    request,
                    Method::Get,
                    "servers/"@ + self.server_id@,
                ),
            }),
    {
        Server::fetch(servers, http, &self.server_id)
    }

    /// The user, from the cache or the request for it.
    pub fn user(&self, users: &Users, http: &HttpClient) -> (r: Fetch<User>)
        ensures
            (match users@.get(self.user_id@) {
                Some(stored) => r matches Fetch::Cached(found) && found.deep_view() == stored,
                None => r matches Fetch::Request(request) && planned(
                    request,
                    Method::Get,
                    "users/"@ + self.user_id@,
                ),
            }),
    {
        User::fetch(users, http, &self.user_id)
    }
}

impl ServerMemberUpdateEvent {
    /// The member, from the cache or the request for it.
    pub fn member(&self, members: &Members, http: &HttpClient) -> (r: Fetch<Member>)
        ensures
            (match members@.get(MemberIDView { server_id: self.member_id.server_id@, user_id: self.member_id.user_id@ }) {
                Some(stored) => r matches Fetch::Cached(found) && found.deep_view() == stored,
                None => r matches Fetch::Request(request) && planned(
                    request,
                    Method::Get,
                    "servers/"@ + self.member_id.server_id@ + "/members/"@ + self.member_id.user_id@,
                ),
            }),
    {
        Member::fetch(members, http, &self.member_id.server_id, &self.member_id.user_id)
    }

    /// The server, from the cache or the request for it.
    pub fn server(&self, servers: &Servers, http: &HttpClient) -> (r: Fetch<Server>)
        ensures
            (match servers@.get(self.member_id.server_id@) {
                Some(stored) => r matches Fetch::Cached(found) && found.deep_view() == stored,
                None => r matches Fetch::Request(request) && planned(
                    request,
                    Method::Get,
                    "servers/"@ + self.member_id.server_id@,
                ),
            }),
    {
        Server::fetch(servers, http, &self.member_id.server_id)
    }

    /// The user, from the cache or the request for it.
    pub fn user(&self, users: &Users, http: &HttpClient) -> (r: Fetch<User>)
        ensures
            (match users@.get(self.member_id.user_id@) {
                Some(stored) => r matches Fetch::Cached(found) && found.deep_view() == stored,
                None => r matches Fetch::Request(request) && planned(
                    request,
                    Method::Get,
                    "users/"@ + self.member_id.user_id@,
                ),
            }),
    {
        User::fetch(users, http, &self.member_id.user_id)
    }
}

impl ServerRoleDeleteEvent {
    /// The server, from the cache or the request for it.
    pub fn server(&self, servers: &Servers, http: &HttpClient) -> (r: Fetch<Server>)
        ensures
            (match servers@.get(self.server_id@) {
                Some(stored) => r matches Fetch::Cached(found) && found.deep_view() == stored,
                None => r matches Fetch::Request(request) && planned(
                    request,
                    Method::Get,
                    "servers/"@ + self.server_id@,
                ),
            }),
    {
        Server::fetch(servers, http, &self.server_id)
    }
}

impl ServerRoleUpdateEvent {
    /// The server, from the cache or the request for it.
    pub fn server(&self, servers: &Servers, http: &HttpClient) -> (r: Fetch<Server>)
        ensures
            (match servers@.get(self.server_id@) {
                Some(stored) => r matches Fetch::Cached(found) && found.deep_view() == stored,
                None => r matches Fetch::Request(request) && planned(
                    request,
                    Method::Get,
                    "servers/"@ + self.server_id@,
                ),
            }),
    {
        Server::fetch(servers, http, &self.server_id)
    }
}

impl ServerUpdateEvent {
    /// The server, from the cache or the request for it.
    pub fn server(&self, servers: &Servers, http: &HttpClient) -> (r: Fetch<Server>)
        ensures
            (match servers@.get(self.server_id@) {
                Some(stored) => r matches Fetch::Cached(found) && found.deep_view() == stored,
                None => r matches Fetch::Request(request) && planned(
                    request,
                    Method::Get,
                    "servers/"@ + self.server_id@,
                ),
            }),
    {
        Server::fetch(servers, http, &self.server_id)
    }
}

impl UserUpdateEvent {
    /// The user, from the cache or the request for it.
    pub fn user(&self, users: &Users, http: &HttpClient) -> (r: Fetch<User>)
        ensures
            (match users@.get(self.user_id@) {
                Some(stored) => r matches Fetch::Cached(found) && found.deep_view() == stored,
                None => r matches Fetch::Request(request) && planned(
                    request,
                    Method::Get,
                    "users/"@ + self.user_id@,
                ),
            }),
    {
        User::fetch(users, http, &self.user_id)
    }
}

} // verus!
