use vstd::prelude::*;
use crate::models::attachment::{Attachment, AttachmentView};
use crate::models::flags::ServerFlags;
use crate::models::user::User;

verus! {

/// A server category.
#[derive(Debug, PartialEq, Eq)]
pub struct Category {
    /// Category id.
    pub id: String,
    /// Category title.
    pub title: String,
    /// Category channels ids.
    pub channels: Vec<String>,
}

/// What a [`Category`] holds, as mathematical values.
pub struct CategoryView {
    pub id: Seq<char>,
    pub title: Seq<char>,
    pub channels: Seq<Seq<char>>,
}

impl DeepView for Category {
    type V = CategoryView;

    open spec fn deep_view(&self) -> CategoryView {
        CategoryView {
            id: self.id.deep_view(),
            title: self.title.deep_view(),
            channels: self.channels.deep_view(),
        }
    }
}

impl Clone for Category {
    fn clone(&self) -> (r: Self)
        ensures
            r.deep_view() == self.deep_view(),
    {
        Category {
            id: self.id.clone(),
            title: self.title.clone(),
            channels: self.channels.clone(),
        }
    }
}

/// Server system message channels.
#[derive(Debug, PartialEq, Eq)]
pub struct SystemMessageChannels {
    /// User joined channel id.
    pub user_joined: Option<String>,
    /// User left channel id.
    pub user_left: Option<String>,
    /// User kicked channel id.
    pub user_kicked: Option<String>,
    /// User banned channel id.
    pub user_banned: Option<String>,
}

/// What a [`SystemMessageChannels`] holds, as mathematical values.
pub struct SystemMessageChannelsView {
    pub user_joined: Option<Seq<char>>,
    pub user_left: Option<Seq<char>>,
    pub user_kicked: Option<Seq<char>>,
    pub user_banned: Option<Seq<char>>,
}

impl DeepView for SystemMessageChannels {
    type V = SystemMessageChannelsView;

    open spec fn deep_view(&self) -> SystemMessageChannelsView {
        SystemMessageChannelsView {
            user_joined: self.user_joined.deep_view(),
            user_left: self.user_left.deep_view(),
            user_kicked: self.user_kicked.deep_view(),
            user_banned: self.user_banned.deep_view(),
        }
    }
}

impl Clone for SystemMessageChannels {
    fn clone(&self) -> (r: Self)
        ensures
            r.deep_view() == self.deep_view(),
    {
        SystemMessageChannels {
            user_joined: self.user_joined.clone(),
            user_left: self.user_left.clone(),
            user_kicked: self.user_kicked.clone(),
            user_banned: self.user_banned.clone(),
        }
    }
}

/// A server.
#[derive(Debug, PartialEq, Eq)]
pub struct Server {
    /// Server id.
    pub id: String,
    /// Server owner id.
    pub owner_id: String,
    /// Server name.
    pub name: String,
    /// Server description.
    pub description: Option<String>,
    /// Server channels ids.
    pub channels: Vec<String>,
    /// Server categories.
    pub categories: Vec<Category>,
    /// Server system message channels.
    pub system_messages: SystemMessageChannels,
    /// Server icon.
    pub icon: Option<Attachment>,
    /// Server banner.
    pub banner: Option<Attachment>,
    /// Server flags.
    pub flags: ServerFlags,
    /// Server is not safe for work.
    pub nsfw: bool,
}

/// What a [`Server`] holds, as mathematical values.
pub struct ServerView {
    pub id: Seq<char>,
    pub owner_id: Seq<char>,
    pub name: Seq<char>,
    pub description: Option<Seq<char>>,
    pub channels: Seq<Seq<char>>,
    pub categories: Seq<CategoryView>,
    pub system_messages: SystemMessageChannelsView,
    pub icon: Option<AttachmentView>,
    pub banner: Option<AttachmentView>,
    pub flags: ServerFlags,
    pub nsfw: bool,
}

impl DeepView for Server {
    type V = ServerView;

    open spec fn deep_view(&self) -> ServerView {
        ServerView {
            id: self.id.deep_view(),
            owner_id: self.owner_id.deep_view(),
            name: self.name.deep_view(),
            description: self.description.deep_view(),
            channels: self.channels.deep_view(),
            categories: self.categories.deep_view(),
            system_messages: self.system_messages.deep_view(),
            icon: self.icon.deep_view(),
            banner: self.banner.deep_view(),
            flags: self.flags,
            nsfw: self.nsfw,
        }
    }
}

impl Clone for Server {
    fn clone(&self) -> (r: Self)
        ensures
            r.deep_view() == self.deep_view(),
    {
        Server {
            id: self.id.clone(),
            owner_id: self.owner_id.clone(),
            name: self.name.clone(),
            description: self.description.clone(),
            channels: self.channels.clone(),
            categories: self.categories.clone(),
            system_messages: self.system_messages.clone(),
            icon: self.icon.clone(),
            banner: self.banner.clone(),
            flags: self.flags,
            nsfw: self.nsfw,
        }
    }
}

/// A server member id.
#[derive(Debug, PartialEq, Eq, Hash)]
pub struct MemberID {
    /// Server id.
    pub server_id: String,
    /// User id.
    pub user_id: String,
}

/// What a [`MemberID`] holds, as mathematical values.
pub struct MemberIDView {
    pub server_id: Seq<char>,
    pub user_id: Seq<char>,
}

impl DeepView for MemberID {
    type V = MemberIDView;

    open spec fn deep_view(&self) -> MemberIDView {
        MemberIDView {
            server_id: self.server_id.deep_view(),
            user_id: self.user_id.deep_view(),
        }
    }
}

impl Clone for MemberID {
    fn clone(&self) -> (r: Self)
        ensures
            r.deep_view() == self.deep_view(),
    {
        MemberID {
            server_id: self.server_id.clone(),
            user_id: self.user_id.clone(),
        }
    }
}

/// A server member.
#[derive(Debug, PartialEq, Eq)]
pub struct Member {
    /// Member id.
    pub id: MemberID,
    /// Member nickname.
    pub nickname: Option<String>,
    /// Member avatar.
    pub avatar: Option<Attachment>,
    /// Member roles ids.
    pub roles: Vec<String>,
}

/// What a [`Member`] holds, as mathematical values.
pub struct MemberView {
    pub id: MemberIDView,
    pub nickname: Option<Seq<char>>,
    pub avatar: Option<AttachmentView>,
    pub roles: Seq<Seq<char>>,
}

impl DeepView for Member {
    type V = MemberView;

    open spec fn deep_view(&self) -> MemberView {
        MemberView {
            id: self.id.deep_view(),
            nickname: self.nickname.deep_view(),
            avatar: self.avatar.deep_view(),
            roles: self.roles.deep_view(),
        }
    }
}

impl Clone for Member {
    fn clone(&self) -> (r: Self)
        ensures
            r.deep_view() == self.deep_view(),
    {
        Member {
            id: self.id.clone(),
            nickname: self.nickname.clone(),
            avatar: self.avatar.clone(),
            roles: self.roles.clone(),
        }
    }
}

impl From<(&String, &String)> for MemberID {
    fn from(ids: (&String, &String)) -> (id: Self) {
        MemberID { server_id: ids.0.clone(), user_id: ids.1.clone() }
    }
}

impl vstd::std_specs::convert::FromSpecImpl<(&String, &String)> for MemberID {
    open spec fn obeys_from_spec() -> bool {
        true
    }

    open spec fn from_spec(ids: (&String, &String)) -> Self {
        MemberID { server_id: *ids.0, user_id: *ids.1 }
    }
}

impl Category {
    /// Creates a new [Category].
    pub fn new(id: String, title: &str) -> (r: Self)
        ensures
            r.deep_view() == (CategoryView { id: id@, title: title@, channels: Seq::empty() }),
    {
        let category = Category { id, title: title.to_owned(), channels: Vec::new() };
        assert(category.channels.deep_view() =~= Seq::empty());
        category
    }
}

impl SystemMessageChannels {
    /// Set the user joined channel.
    pub fn user_joined(self, id: &String) -> (r: Self)
        ensures
            r.deep_view() == (SystemMessageChannelsView {
                user_joined: Some(id@),
                ..self.deep_view()
            }),
    {
        let mut channels = self;
        channels.user_joined = Some(id.clone());
        channels
    }

    /// Set the user left channel.
    pub fn user_left(self, id: &String) -> (r: Self)
        ensures
            r.deep_view() == (SystemMessageChannelsView {
                user_left: Some(id@),
                ..self.deep_view()
            }),
    {
        let mut channels = self;
        channels.user_left = Some(id.clone());
        channels
    }

    /// Set the user kicked channel.
    pub fn user_kicked(self, id: &String) -> (r: Self)
        ensures
            r.deep_view() == (SystemMessageChannelsView {
                user_kicked: Some(id@),
                ..self.deep_view()
            }),
    {
        let mut channels = self;
        channels.user_kicked = Some(id.clone());
        channels
    }

    /// Set the user banned channel.
    pub fn user_banned(self, id: &String) -> (r: Self)
        ensures
            r.deep_view() == (SystemMessageChannelsView {
                user_banned: Some(id@),
                ..self.deep_view()
            }),
    {
        let mut channels = self;
        channels.user_banned = Some(id.clone());
        channels
    }
}

impl Default for SystemMessageChannels {
    fn default() -> (r: Self)
        ensures
            r == (SystemMessageChannels {
                user_joined: None,
                user_left: None,
                user_kicked: None,
                user_banned: None,
            }),
    {
        SystemMessageChannels {
            user_joined: None,
            user_left: None,
            user_kicked: None,
            user_banned: None,
        }
    }
}

/// The body of the request that bans a member.
#[derive(Debug, Clone, PartialEq, Eq)]
pub struct CreateBan {
    /// Why the member is banned.
    pub reason: Option<String>,
}

impl CreateBan {
    /// The body with the reason, if one is given.
    pub fn new(reason: Option<&str>) -> (r: Self)
        ensures
            r.reason.deep_view() == reason.deep_view(),
    {
        match reason {
            Some(reason) => CreateBan { reason: Some(reason.to_owned()) },
            None => CreateBan { reason: None },
        }
    }
}

/// The members of a server and the users that they are, as the API lists them.
#[derive(Debug, PartialEq, Eq)]
pub struct ServerMembers {
    pub members: Vec<Member>,
    pub users: Vec<User>,
}

impl ServerMembers {
    /// Each member with the user at the same place of the other list, as far
    /// as both lists go.
    pub fn pairs(&self) -> (r: Vec<(Member, User)>)
        ensures
            r@.len() == (if self.members@.len() <= self.users@.len() {
                self.members@.len()
            } else {
                self.users@.len()
            }),
            forall|i: int|
                0 <= i < r@.len() ==> (#[trigger] r@[i]).0.deep_view()
                    == self.members@[i].deep_view() && r@[i].1.deep_view()
                    == self.users@[i].deep_view(),
    {
        let mut r: Vec<(Member, User)> = Vec::new();
        let mut i: usize = 0;
        while i < self.members.len() && i < self.users.len()
            invariant
                i <= self.members@.len(),
                i <= self.users@.len(),
                r@.len() == i,
                forall|j: int|
                    0 <= j < i ==> (#[trigger] r@[j]).0.deep_view() == self.members@[j].deep_view()
                        && r@[j].1.deep_view() == self.users@[j].deep_view(),
            decreases self.members@.len() - i,
        {
            r.push((self.members[i].clone(), self.users[i].clone()));
            i += 1;
        }
        r
    }
}

} // verus!
