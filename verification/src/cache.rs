//! A cache containing data received from the API.
//!
//! ## Why use cache?
//! Using caching reduces latency to access data and allows you to avoid requests to the API.
//!
//! The cache is made of four tables, one for each kind of entity. Each table
//! stands by itself, so that each can be kept behind a lock of its own.

pub mod laws;
pub mod lemmas;
pub mod model;
pub mod read;
pub mod tables;
pub mod update;

use vstd::prelude::*;
use ahash::AHashMap;
use crate::cache::lemmas::{enumerates, has_key};
use crate::cache::model::{channels_wf, members_wf, servers_wf, users_wf, CacheView};
use crate::cache::tables::{
    channel_entries, channels_get, channels_insert, channels_iter, channels_new,
    channels_remove, member_entries, members_get, members_insert, members_iter, members_new,
    members_remove, server_entries, servers_get, servers_insert, servers_iter, servers_len,
    servers_new, servers_remove, user_entries, users_get, users_insert, users_iter, users_new,
};
use crate::models::channel::{Channel, ChannelView};
use crate::models::server::{Member, MemberID, MemberIDView, MemberView, Server, ServerView};
use crate::models::user::{User, UserView};

verus! {

/// The users of a cache, each under its id.
pub struct Users {
    map: AHashMap<String, User>,
}

impl View for Users {
    type V = Map<Seq<char>, UserView>;

    closed spec fn view(&self) -> Map<Seq<char>, UserView> {
        user_entries(self.map)
    }
}

impl Users {
    /// The table is finite and each user stands under its own id.
    pub open spec fn wf(&self) -> bool {
        users_wf(self@)
    }

    /// Creates a table that holds nothing.
    pub fn new() -> (table: Self)
        ensures
            table.wf(),
            table@ == Map::<Seq<char>, UserView>::empty(),
    {
        let table = Users { map: users_new() };
        assert(table@ =~= Map::<Seq<char>, UserView>::empty());
        table
    }

    /// The stored user with this id.
    pub(crate) fn find(&self, id: &String) -> (r: Option<&User>)
        ensures
            r.deep_view() == self@.get(id@),
    {
        users_get(&self.map, id)
    }

    /// Stores a user under its id.
    pub(crate) fn put(&mut self, user: User)
        ensures
            final(self)@ == old(self)@.insert(user.id@, user.deep_view()),
    {
        let id = user.id.clone();
        users_insert(&mut self.map, id, user);
    }

    /// The stored users with their ids, each once, in no particular order.
    pub(crate) fn pairs(&self) -> (r: Vec<(&String, &User)>)
        ensures
            enumerates(r.deep_view(), self@),
    {
        let r = users_iter(&self.map);
        proof {
            let pairs = r.deep_view();
            assert forall|i: int| 0 <= i < pairs.len() implies self@.contains_pair(
                (#[trigger] pairs[i]).0,
                pairs[i].1,
            ) by {
                assert(user_entries(self.map).contains_pair(
                    r@[i].0.deep_view(),
                    r@[i].1.deep_view(),
                ));
            }
            assert forall|k: Seq<char>| #[trigger] self@.contains_key(k) implies has_key(pairs, k) by {
                let i = choose|i: int| 0 <= i < r@.len() && #[trigger] r@[i].0.deep_view() == k;
                assert(pairs[i].0 == k);
            }
        }
        r
    }

    /// Get a user from the table.
    pub fn get(&self, id: &String) -> (r: Option<User>)
        ensures
            r.deep_view() == self@.get(id@),
    {
        match self.find(id) {
            Some(user) => Some(user.clone()),
            None => None,
        }
    }
}

impl Default for Users {
    fn default() -> (table: Self)
        ensures
            table.wf(),
            table@ == Map::<Seq<char>, UserView>::empty(),
    {
        Users::new()
    }
}

/// The channels of a cache, each under its id.
pub struct Channels {
    map: AHashMap<String, Channel>,
}

impl View for Channels {
    type V = Map<Seq<char>, ChannelView>;

    closed spec fn view(&self) -> Map<Seq<char>, ChannelView> {
        channel_entries(self.map)
    }
}

impl Channels {
    /// The table is finite and each channel stands under its own id.
    pub open spec fn wf(&self) -> bool {
        channels_wf(self@)
    }

    /// Creates a table that holds nothing.
    pub fn new() -> (table: Self)
        ensures
            table.wf(),
            table@ == Map::<Seq<char>, ChannelView>::empty(),
    {
        let table = Channels { map: channels_new() };
        assert(table@ =~= Map::<Seq<char>, ChannelView>::empty());
        table
    }

    /// The stored channel with this id.
    pub(crate) fn find(&self, id: &String) -> (r: Option<&Channel>)
        ensures
            r.deep_view() == self@.get(id@),
    {
        channels_get(&self.map, id)
    }

    /// Stores a channel under its id.
    pub(crate) fn put(&mut self, channel: Channel)
        ensures
            final(self)@ == old(self)@.insert(channel.deep_view().id(), channel.deep_view()),
    {
        let id = channel.id().clone();
        channels_insert(&mut self.map, id, channel);
    }

    /// Forgets the channel with this id.
    pub(crate) fn remove(&mut self, id: &String)
        ensures
            final(self)@ == old(self)@.remove(id@),
    {
        channels_remove(&mut self.map, id);
    }

    /// The stored channels with their ids, each once, in no particular order.
    pub(crate) fn pairs(&self) -> (r: Vec<(&String, &Channel)>)
        ensures
            enumerates(r.deep_view(), self@),
    {
        let r = channels_iter(&self.map);
        proof {
            let pairs = r.deep_view();
            assert forall|i: int| 0 <= i < pairs.len() implies self@.contains_pair(
                (#[trigger] pairs[i]).0,
                pairs[i].1,
            ) by {
                assert(channel_entries(self.map).contains_pair(
                    r@[i].0.deep_view(),
                    r@[i].1.deep_view(),
                ));
            }
            assert forall|k: Seq<char>| #[trigger] self@.contains_key(k) implies has_key(pairs, k) by {
                let i = choose|i: int| 0 <= i < r@.len() && #[trigger] r@[i].0.deep_view() == k;
                assert(pairs[i].0 == k);
            }
        }
        r
    }

    /// Get a channel from the table.
    pub fn get(&self, id: &String) -> (r: Option<Channel>)
        ensures
            r.deep_view() == self@.get(id@),
    {
        match self.find(id) {
            Some(channel) => Some(channel.clone()),
            None => None,
        }
    }
}

impl Default for Channels {
    fn default() -> (table: Self)
        ensures
            table.wf(),
            table@ == Map::<Seq<char>, ChannelView>::empty(),
    {
        Channels::new()
    }
}

/// The servers of a cache, each under its id.
pub struct Servers {
    map: AHashMap<String, Server>,
}

impl View for Servers {
    type V = Map<Seq<char>, ServerView>;

    closed spec fn view(&self) -> Map<Seq<char>, ServerView> {
        server_entries(self.map)
    }
}

impl Servers {
    /// The table is finite and each server stands under its own id.
    pub open spec fn wf(&self) -> bool {
        servers_wf(self@)
    }

    /// Creates a table that holds nothing.
    pub fn new() -> (table: Self)
        ensures
            table.wf(),
            table@ == Map::<Seq<char>, ServerView>::empty(),
    {
        let table = Servers { map: servers_new() };
        assert(table@ =~= Map::<Seq<char>, ServerView>::empty());
        table
    }

    /// The stored server with this id.
    pub(crate) fn find(&self, id: &String) -> (r: Option<&Server>)
        ensures
            r.deep_view() == self@.get(id@),
    {
        servers_get(&self.map, id)
    }

    /// Stores a server under its id.
    pub(crate) fn put(&mut self, server: Server)
        ensures
            final(self)@ == old(self)@.insert(server.id@, server.deep_view()),
    {
        let id = server.id.clone();
        servers_insert(&mut self.map, id, server);
    }

    /// Forgets the server with this id.
    pub(crate) fn remove(&mut self, id: &String)
        ensures
            final(self)@ == old(self)@.remove(id@),
    {
        servers_remove(&mut self.map, id);
    }

    /// The stored servers with their ids, each once, in no particular order.
    pub(crate) fn pairs(&self) -> (r: Vec<(&String, &Server)>)
        ensures
            enumerates(r.deep_view(), self@),
    {
        let r = servers_iter(&self.map);
        proof {
            let pairs = r.deep_view();
            assert forall|i: int| 0 <= i < pairs.len() implies self@.contains_pair(
                (#[trigger] pairs[i]).0,
                pairs[i].1,
            ) by {
                assert(server_entries(self.map).contains_pair(
                    r@[i].0.deep_view(),
                    r@[i].1.deep_view(),
                ));
            }
            assert forall|k: Seq<char>| #[trigger] self@.contains_key(k) implies has_key(pairs, k) by {
                let i = choose|i: int| 0 <= i < r@.len() && #[trigger] r@[i].0.deep_view() == k;
                assert(pairs[i].0 == k);
            }
        }
        r
    }

    /// Get a server from the table.
    pub fn get(&self, id: &String) -> (r: Option<Server>)
        ensures
            r.deep_view() == self@.get(id@),
    {
        match self.find(id) {
            Some(server) => Some(server.clone()),
            None => None,
        }
    }

    /// Returns the number of servers in the table.
    pub fn count(&self) -> (n: usize)
        ensures
            n == self@.len(),
    {
        servers_len(&self.map)
    }
}

impl Default for Servers {
    fn default() -> (table: Self)
        ensures
            table.wf(),
            table@ == Map::<Seq<char>, ServerView>::empty(),
    {
        Servers::new()
    }
}

/// The members of a cache, each under its id.
pub struct Members {
    map: AHashMap<MemberID, Member>,
}

impl View for Members {
    type V = Map<MemberIDView, MemberView>;

    closed spec fn view(&self) -> Map<MemberIDView, MemberView> {
        member_entries(self.map)
    }
}

impl Members {
    /// The table is finite and each member stands under its own id.
    pub open spec fn wf(&self) -> bool {
        members_wf(self@)
    }

    /// Creates a table that holds nothing.
    pub fn new() -> (table: Self)
        ensures
            table.wf(),
            table@ == Map::<MemberIDView, MemberView>::empty(),
    {
        let table = Members { map: members_new() };
        assert(table@ =~= Map::<MemberIDView, MemberView>::empty());
        table
    }

    /// The stored member with this id.
    pub(crate) fn find(&self, id: &MemberID) -> (r: Option<&Member>)
        ensures
            r.deep_view() == self@.get(id.deep_view()),
    {
        members_get(&self.map, id)
    }

    /// Stores a member under its id.
    pub(crate) fn put(&mut self, member: Member)
        ensures
            final(self)@ == old(self)@.insert(member.id.deep_view(), member.deep_view()),
    {
        let id = member.id.clone();
        members_insert(&mut self.map, id, member);
    }

    /// Forgets the member with this id.
    pub(crate) fn remove(&mut self, id: &MemberID)
        ensures
            final(self)@ == old(self)@.remove(id.deep_view()),
    {
        members_remove(&mut self.map, id);
    }

    /// The stored members with their ids, each once, in no particular order.
    pub(crate) fn pairs(&self) -> (r: Vec<(&MemberID, &Member)>)
        ensures
            enumerates(r.deep_view(), self@),
    {
        let r = members_iter(&self.map);
        proof {
            let pairs = r.deep_view();
            assert forall|i: int| 0 <= i < pairs.len() implies self@.contains_pair(
                (#[trigger] pairs[i]).0,
                pairs[i].1,
            ) by {
                assert(member_entries(self.map).contains_pair(
                    r@[i].0.deep_view(),
                    r@[i].1.deep_view(),
                ));
            }
            assert forall|k: MemberIDView| #[trigger] self@.contains_key(k) implies has_key(pairs, k) by {
                let i = choose|i: int| 0 <= i < r@.len() && #[trigger] r@[i].0.deep_view() == k;
                assert(pairs[i].0 == k);
            }
        }
        r
    }

    /// Get a member from the table.
    pub fn get(&self, id: &MemberID) -> (r: Option<Member>)
        ensures
            r.deep_view() == self@.get(id.deep_view()),
    {
        match self.find(id) {
            Some(member) => Some(member.clone()),
            None => None,
        }
    }
}

impl Default for Members {
    fn default() -> (table: Self)
        ensures
            table.wf(),
            table@ == Map::<MemberIDView, MemberView>::empty(),
    {
        Members::new()
    }
}

/// A cache containing data received from the API.
pub struct Cache {
    /// The users.
    pub users: Users,
    /// The channels.
    pub channels: Channels,
    /// The servers.
    pub servers: Servers,
    /// The members.
    pub members: Members,
}

impl View for Cache {
    type V = CacheView;

    open spec fn view(&self) -> CacheView {
        CacheView {
            users: self.users@,
            channels: self.channels@,
            servers: self.servers@,
            members: self.members@,
        }
    }
}

impl Cache {
    /// Each map is finite and keyed by the id of the entity it stores.
    pub open spec fn wf(&self) -> bool {
        self@.wf()
    }

    /// Creates a cache that holds nothing.
    pub fn new() -> (cache: Self)
        ensures
            cache.wf(),
            cache@ == CacheView::empty(),
    {
        Cache {
            users: Users::new(),
            channels: Channels::new(),
            servers: Servers::new(),
            members: Members::new(),
        }
    }

    /// The stored user with this id.
    pub(crate) fn user_ref(&self, id: &String) -> (r: Option<&User>)
        ensures
            r.deep_view() == self@.users.get(id@),
    {
        self.users.find(id)
    }

    /// Stores a user under its id.
    pub(crate) fn put_user(&mut self, user: User)
        ensures
            final(self)@ == (CacheView {
                users: old(self)@.users.insert(user.id@, user.deep_view()),
                ..old(self)@
            }),
    {
        self.users.put(user);
    }

    /// The stored channel with this id.
    pub(crate) fn channel_ref(&self, id: &String) -> (r: Option<&Channel>)
        ensures
            r.deep_view() == self@.channels.get(id@),
    {
        self.channels.find(id)
    }

    /// Stores a channel under its id.
    pub(crate) fn put_channel(&mut self, channel: Channel)
        ensures
            final(self)@ == (CacheView {
                channels: old(self)@.channels.insert(channel.deep_view().id(), channel.deep_view()),
                ..old(self)@
            }),
    {
        self.channels.put(channel);
    }

    /// Forgets the channel with this id.
    pub(crate) fn remove_channel(&mut self, id: &String)
        ensures
            final(self)@ == (CacheView {
                channels: old(self)@.channels.remove(id@),
                ..old(self)@
            }),
    {
        self.channels.remove(id);
    }

    /// The stored server with this id.
    pub(crate) fn server_ref(&self, id: &String) -> (r: Option<&Server>)
        ensures
            r.deep_view() == self@.servers.get(id@),
    {
        self.servers.find(id)
    }

    /// Stores a server under its id.
    pub(crate) fn put_server(&mut self, server: Server)
        ensures
            final(self)@ == (CacheView {
                servers: old(self)@.servers.insert(server.id@, server.deep_view()),
                ..old(self)@
            }),
    {
        self.servers.put(server);
    }

    /// Forgets the server with this id.
    pub(crate) fn remove_server(&mut self, id: &String)
        ensures
            final(self)@ == (CacheView {
                servers: old(self)@.servers.remove(id@),
                ..old(self)@
            }),
    {
        self.servers.remove(id);
    }

    /// The stored member with this id.
    pub(crate) fn member_ref(&self, id: &MemberID) -> (r: Option<&Member>)
        ensures
            r.deep_view() == self@.members.get(id.deep_view()),
    {
        self.members.find(id)
    }

    /// Stores a member under its id.
    pub(crate) fn put_member(&mut self, member: Member)
        ensures
            final(self)@ == (CacheView {
                members: old(self)@.members.insert(member.id.deep_view(), member.deep_view()),
                ..old(self)@
            }),
    {
        self.members.put(member);
    }

    /// Forgets the member with this id.
    pub(crate) fn remove_member(&mut self, id: &MemberID)
        ensures
            final(self)@ == (CacheView {
                members: old(self)@.members.remove(id.deep_view()),
                ..old(self)@
            }),
    {
        self.members.remove(id);
    }

    /// Get a user from cache.
    pub fn user(&self, id: &String) -> (r: Option<User>)
        ensures
            r.deep_view() == self@.users.get(id@),
    {
        self.users.get(id)
    }

    /// Get a channel from cache.
    pub fn channel(&self, id: &String) -> (r: Option<Channel>)
        ensures
            r.deep_view() == self@.channels.get(id@),
    {
        self.channels.get(id)
    }

    /// Get a server from cache.
    pub fn server(&self, id: &String) -> (r: Option<Server>)
        ensures
            r.deep_view() == self@.servers.get(id@),
    {
        self.servers.get(id)
    }

    /// Get a member from cache.
    pub fn member(&self, id: &MemberID) -> (r: Option<Member>)
        ensures
            r.deep_view() == self@.members.get(id.deep_view()),
    {
        self.members.get(id)
    }

    /// Returns the number of servers in cache.
    pub fn servers_count(&self) -> (n: usize)
        ensures
            n == self@.servers.len(),
    {
        self.servers.count()
    }
}

impl Default for Cache {
    fn default() -> (cache: Self)
        ensures
            cache.wf(),
            cache@ == CacheView::empty(),
    {
        Cache::new()
    }
}

} // verus!
