//! The requests that the models make of the API.

use vstd::prelude::*;
use vstd::string::StringExecFns;
use crate::cache::{Channels, Members, Servers, Users};
use crate::http::{
    lemma_sending_waits_for_the_message_limit, planned, Fetch, HttpClient, Method, RateLimit,
    Request,
};
use crate::builders::message::{CreateMessage, Reply};
use crate::models::channel::{
    Channel, DirectMessageChannel, GroupChannel, TextChannel, VoiceChannel,
};
use crate::models::message::Message;
use crate::models::server::{CreateBan, Member, MemberID, MemberIDView, Server};
use crate::models::user::User;

verus! {

impl User {
    /// Get a user from the users of a cache or, where they hold none, the request for it.
    pub fn fetch(users: &Users, http: &HttpClient, id: &String) -> (r: Fetch<User>)
        ensures
            (match users@.get(id@) {
                Some(stored) => r matches Fetch::Cached(found) && found.deep_view() == stored,
                None => r matches Fetch::Request(request) && planned(
                    request,
                    Method::Get,
                    "users/"@ + id@,
                ),
            }),
    {
        match users.get(id) {
            Some(found) => Fetch::Cached(found),
            None => Fetch::Request(http.get("users/".to_owned().concat(id.as_str()).as_str())),
        }
    }

    /// The request for the user profile.
    pub fn profile(&self, http: &HttpClient) -> (request: Request)
        ensures
            planned(request, Method::Get, "users/"@ + self.id@ + "/profile"@),
    {
        http.get("users/".to_owned().concat(self.id.as_str()).concat("/profile").as_str())
    }

    /// The request that opens a DM with the user.
    pub fn dm(&self, http: &HttpClient) -> (request: Request)
        ensures
            planned(request, Method::Get, "users/"@ + self.id@ + "/dm"@),
    {
        http.get("users/".to_owned().concat(self.id.as_str()).concat("/dm").as_str())
    }
}

impl Channel {
    /// Get a channel from the channels of a cache or, where they hold none, the request for it.
    pub fn fetch(channels: &Channels, http: &HttpClient, id: &String) -> (r: Fetch<Channel>)
        ensures
            (match channels@.get(id@) {
                Some(stored) => r matches Fetch::Cached(found) && found.deep_view() == stored,
                None => r matches Fetch::Request(request) && planned(
                    request,
                    Method::Get,
                    "channels/"@ + id@,
                ),
            }),
    {
        match channels.get(id) {
            Some(found) => Fetch::Cached(found),
            None => Fetch::Request(http.get("channels/".to_owned().concat(id.as_str()).as_str())),
        }
    }

    /// The request that edits a channel; its body is an [`EditChannel`](crate::builders::EditChannel).
    pub fn edit(http: &HttpClient, channel_id: &String) -> (request: Request)
        ensures
            planned(request, Method::Patch, "channels/"@ + channel_id@),
    {
        http.patch("channels/".to_owned().concat(channel_id.as_str()).as_str())
    }

    /// The request that deletes a channel.
    pub fn delete(http: &HttpClient, channel_id: &String) -> (request: Request)
        ensures
            planned(request, Method::Delete, "channels/"@ + channel_id@),
    {
        http.delete("channels/".to_owned().concat(channel_id.as_str()).as_str())
    }
}

impl TextChannel {
    /// The request that sends a message in this channel; its body is a [`CreateMessage`].
    pub fn send(&self, http: &HttpClient) -> (request: Request)
        ensures
            planned(request, Method::Post, "channels/"@ + self.id@ + "/messages"@),
            request.limit == RateLimit::Messages,
    {
        proof {
            lemma_sending_waits_for_the_message_limit(self.id@);
        }
        http.post("channels/".to_owned().concat(self.id.as_str()).concat("/messages").as_str())
    }

    /// The request that edits the channel; its body is an [`EditChannel`](crate::builders::EditChannel).
    pub fn edit(&self, http: &HttpClient) -> (request: Request)
        ensures
            planned(request, Method::Patch, "channels/"@ + self.id@),
    {
        http.patch("channels/".to_owned().concat(self.id.as_str()).as_str())
    }

    /// The request that deletes the channel.
    pub fn delete(&self, http: &HttpClient) -> (request: Request)
        ensures
            planned(request, Method::Delete, "channels/"@ + self.id@),
    {
        http.delete("channels/".to_owned().concat(self.id.as_str()).as_str())
    }
}

impl VoiceChannel {
    /// The request that edits the channel; its body is an [`EditChannel`](crate::builders::EditChannel).
    pub fn edit(&self, http: &HttpClient) -> (request: Request)
        ensures
            planned(request, Method::Patch, "channels/"@ + self.id@),
    {
        http.patch("channels/".to_owned().concat(self.id.as_str()).as_str())
    }

    /// The request that deletes the channel.
    pub fn delete(&self, http: &HttpClient) -> (request: Request)
        ensures
            planned(request, Method::Delete, "channels/"@ + self.id@),
    {
        http.delete("channels/".to_owned().concat(self.id.as_str()).as_str())
    }
}

impl GroupChannel {
    /// The request for the users who are part of the group.
    pub fn members(&self, http: &HttpClient) -> (request: Request)
        ensures
            planned(request, Method::Get, "channels/"@ + self.id@ + "/members"@),
    {
        http.get("channels/".to_owned().concat(self.id.as_str()).concat("/members").as_str())
    }

    /// The request that sends a message in the group; its body is a [`CreateMessage`].
    pub fn send(&self, http: &HttpClient) -> (request: Request)
        ensures
            planned(request, Method::Post, "channels/"@ + self.id@ + "/messages"@),
            request.limit == RateLimit::Messages,
    {
        proof {
            lemma_sending_waits_for_the_message_limit(self.id@);
        }
        http.post("channels/".to_owned().concat(self.id.as_str()).concat("/messages").as_str())
    }

    /// The request that edits the group; its body is an [`EditChannel`](crate::builders::EditChannel).
    pub fn edit(&self, http: &HttpClient) -> (request: Request)
        ensures
            planned(request, Method::Patch, "channels/"@ + self.id@),
    {
        http.patch("channels/".to_owned().concat(self.id.as_str()).as_str())
    }

    /// The request that leaves the group.
    pub fn leave(&self, http: &HttpClient) -> (request: Request)
        ensures
            planned(request, Method::Delete, "channels/"@ + self.id@),
    {
        http.delete("channels/".to_owned().concat(self.id.as_str()).as_str())
    }
}

impl DirectMessageChannel {
    /// The request that opens a DM with another user.
    pub fn open(http: &HttpClient, user_id: &String) -> (request: Request)
        ensures
            planned(request, Method::Get, "users/"@ + user_id@ + "/dm"@),
    {
        http.get("users/".to_owned().concat(user_id.as_str()).concat("/dm").as_str())
    }

    /// The request that sends a message in this channel; its body is a [`CreateMessage`].
    pub fn send(&self, http: &HttpClient) -> (request: Request)
        ensures
            planned(request, Method::Post, "channels/"@ + self.id@ + "/messages"@),
            request.limit == RateLimit::Messages,
    {
        proof {
            lemma_sending_waits_for_the_message_limit(self.id@);
        }
        http.post("channels/".to_owned().concat(self.id.as_str()).concat("/messages").as_str())
    }

    /// The request that closes the DM.
    pub fn close(&self, http: &HttpClient) -> (request: Request)
        ensures
            planned(request, Method::Delete, "channels/"@ + self.id@),
    {
        http.delete("channels/".to_owned().concat(self.id.as_str()).as_str())
    }
}

impl Message {
    /// The request for a message. Messages are not cached.
    pub fn fetch(http: &HttpClient, channel_id: &String, id: &String) -> (request: Request)
        ensures
            planned(request, Method::Get, "channels/"@ + channel_id@ + "/messages/"@ + id@),
    {
        http.get("channels/".to_owned().concat(channel_id.as_str()).concat("/messages/").concat(id.as_str()).as_str())
    }

    /// The request that creates a message in the channel; its body is a [`CreateMessage`].
    pub fn create(http: &HttpClient, channel_id: &String) -> (request: Request)
        ensures
            planned(request, Method::Post, "channels/"@ + channel_id@ + "/messages"@),
            request.limit == RateLimit::Messages,
    {
        proof {
            lemma_sending_waits_for_the_message_limit(channel_id@);
        }
        http.post("channels/".to_owned().concat(channel_id.as_str()).concat("/messages").as_str())
    }

    /// The request that creates a message in the channel of this one; its body is a [`CreateMessage`].
    pub fn create_from_self(&self, http: &HttpClient) -> (request: Request)
        ensures
            planned(request, Method::Post, "channels/"@ + self.channel_id@ + "/messages"@),
            request.limit == RateLimit::Messages,
    {
        proof {
            lemma_sending_waits_for_the_message_limit(self.channel_id@);
        }
        http.post("channels/".to_owned().concat(self.channel_id.as_str()).concat("/messages").as_str())
    }

    /// Reply to the message: the request that creates the reply, and its
    /// body, which is `builder` with this message added to what it replies to.
    pub fn reply(&self, http: &HttpClient, builder: CreateMessage, mention: bool) -> (r: (
        Request,
        CreateMessage,
    ))
        ensures
            planned(r.0, Method::Post, "channels/"@ + self.channel_id@ + "/messages"@),
            r.0.limit == RateLimit::Messages,
            r.1.replies@ == builder.replies@.push(Reply { id: self.id, mention }),
            r.1.content == builder.content,
            r.1.attachments == builder.attachments,
            r.1.embeds == builder.embeds,
            r.1.masquerade == builder.masquerade,
    {
        (Message::create(http, &self.channel_id), builder.reply(&self.id, mention))
    }

    /// The request that edits the message; its body is an [`EditMessage`](crate::builders::EditMessage).
    pub fn edit(&self, http: &HttpClient) -> (request: Request)
        ensures
            planned(request, Method::Patch, "channels/"@ + self.channel_id@ + "/messages/"@ + self.id@),
    {
        http.patch("channels/".to_owned().concat(self.channel_id.as_str()).concat("/messages/").concat(self.id.as_str()).as_str())
    }

    /// The request that deletes the message.
    pub fn delete(&self, http: &HttpClient) -> (request: Request)
        ensures
            planned(request, Method::Delete, "channels/"@ + self.channel_id@ + "/messages/"@ + self.id@),
    {
        http.delete("channels/".to_owned().concat(self.channel_id.as_str()).concat("/messages/").concat(self.id.as_str()).as_str())
    }
}

impl Member {
    /// Get a member from the members of a cache or, where they hold none, the request for it.
    pub fn fetch(
        members: &Members,
        http: &HttpClient,
        server_id: &String,
        user_id: &String,
    ) -> (r: Fetch<Member>)
        ensures
            (match members@.get(MemberIDView { server_id: server_id@, user_id: user_id@ }) {
                Some(stored) => r matches Fetch::Cached(found) && found.deep_view() == stored,
                None => r matches Fetch::Request(request) && planned(
                    request,
                    Method::Get,
                    "servers/"@ + server_id@ + "/members/"@ + user_id@,
                ),
            }),
    {
        let id = MemberID { server_id: server_id.clone(), user_id: user_id.clone() };
        match members.get(&id) {
            Some(found) => Fetch::Cached(found),
            None => Fetch::Request(
                http.get(
                    "servers/".to_owned().concat(server_id.as_str()).concat("/members/").concat(
                        user_id.as_str(),
                    ).as_str(),
                ),
            ),
        }
    }

    /// The request that edits the member.
    pub fn edit(&self, http: &HttpClient) -> (request: Request)
        ensures
            planned(request, Method::Patch, "servers/"@ + self.id.server_id@ + "/members/"@ + self.id.user_id@),
    {
        http.patch("servers/".to_owned().concat(self.id.server_id.as_str()).concat("/members/").concat(self.id.user_id.as_str()).as_str())
    }

    /// The request that kicks the member from the server.
    pub fn kick(&self, http: &HttpClient) -> (request: Request)
        ensures
            planned(request, Method::Delete, "servers/"@ + self.id.server_id@ + "/members/"@ + self.id.user_id@),
    {
        http.delete("servers/".to_owned().concat(self.id.server_id.as_str()).concat("/members/").concat(self.id.user_id.as_str()).as_str())
    }

    /// Ban the member from the server: the request, and its body, which
    /// holds the reason if one is given.
    pub fn ban(&self, http: &HttpClient, reason: Option<&str>) -> (r: (Request, CreateBan))
        ensures
            planned(
                r.0,
                Method::Put,
                "servers/"@ + self.id.server_id@ + "/bans/"@ + self.id.user_id@,
            ),
            r.1.reason.deep_view() == reason.deep_view(),
    {
        (
            http.put(
                "servers/".to_owned().concat(self.id.server_id.as_str()).concat("/bans/").concat(
                    self.id.user_id.as_str(),
                ).as_str(),
            ),
            CreateBan::new(reason),
        )
    }
}

impl Server {
    /// Get a server from the servers of a cache or, where they hold none, the request for it.
    pub fn fetch(servers: &Servers, http: &HttpClient, id: &String) -> (r: Fetch<Server>)
        ensures
            (match servers@.get(id@) {
                Some(stored) => r matches Fetch::Cached(found) && found.deep_view() == stored,
                None => r matches Fetch::Request(request) && planned(
                    request,
                    Method::Get,
                    "servers/"@ + id@,
                ),
            }),
    {
        match servers.get(id) {
            Some(found) => Fetch::Cached(found),
            None => Fetch::Request(http.get("servers/".to_owned().concat(id.as_str()).as_str())),
        }
    }

    /// The request for all server members.
    pub fn members(&self, http: &HttpClient) -> (request: Request)
        ensures
            planned(request, Method::Get, "servers/"@ + self.id@ + "/members"@),
    {
        http.get("servers/".to_owned().concat(self.id.as_str()).concat("/members").as_str())
    }

    /// The request that edits the server.
    pub fn edit(&self, http: &HttpClient) -> (request: Request)
        ensures
            planned(request, Method::Patch, "servers/"@ + self.id@),
    {
        http.patch("servers/".to_owned().concat(self.id.as_str()).as_str())
    }

    /// The request that creates a channel in the server; its body is a [`CreateChannel`](crate::builders::CreateChannel).
    pub fn create_channel(&self, http: &HttpClient) -> (request: Request)
        ensures
            planned(request, Method::Post, "servers/"@ + self.id@ + "/channels"@),
    {
        http.post("servers/".to_owned().concat(self.id.as_str()).concat("/channels").as_str())
    }

    /// The request that leaves the server.
    pub fn leave(&self, http: &HttpClient) -> (request: Request)
        ensures
            planned(request, Method::Delete, "servers/"@ + self.id@),
    {
        http.delete("servers/".to_owned().concat(self.id.as_str()).as_str())
    }

    /// The request that unbans a user from the server.
    pub fn unban(&self, http: &HttpClient, user_id: &String) -> (request: Request)
        ensures
            planned(request, Method::Delete, "servers/"@ + self.id@ + "/bans/"@ + user_id@),
    {
        http.delete("servers/".to_owned().concat(self.id.as_str()).concat("/bans/").concat(user_id.as_str()).as_str())
    }
}

} // verus!
