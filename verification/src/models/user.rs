use vstd::prelude::*;
use crate::models::attachment::{Attachment, AttachmentView};

verus! {

/// A user status.
#[derive(Debug, PartialEq, Eq)]
pub struct UserStatus {
    /// Custom status text.
    pub text: Option<String>,
}

/// What a [`UserStatus`] holds, as mathematical values.
pub struct UserStatusView {
    pub text: Option<Seq<char>>,
}

impl DeepView for UserStatus {
    type V = UserStatusView;

    open spec fn deep_view(&self) -> UserStatusView {
        UserStatusView {
            text: self.text.deep_view(),
        }
    }
}

impl Clone for UserStatus {
    fn clone(&self) -> (r: Self)
        ensures
            r.deep_view() == self.deep_view(),
    {
        UserStatus {
            text: self.text.clone(),
        }
    }
}

/// A user profile.
#[derive(Debug, PartialEq, Eq)]
pub struct UserProfile {
    /// Profile content.
    pub content: Option<String>,
    /// Profile background.
    pub background: Option<Attachment>,
}

/// What a [`UserProfile`] holds, as mathematical values.
pub struct UserProfileView {
    pub content: Option<Seq<char>>,
    pub background: Option<AttachmentView>,
}

impl DeepView for UserProfile {
    type V = UserProfileView;

    open spec fn deep_view(&self) -> UserProfileView {
        UserProfileView {
            content: self.content.deep_view(),
            background: self.background.deep_view(),
        }
    }
}

impl Clone for UserProfile {
    fn clone(&self) -> (r: Self)
        ensures
            r.deep_view() == self.deep_view(),
    {
        UserProfile {
            content: self.content.clone(),
            background: self.background.clone(),
        }
    }
}

/// A bot information.
#[derive(Debug, PartialEq, Eq)]
pub struct BotInformation {
    /// Bot owner id.
    pub owner_id: String,
}

/// What a [`BotInformation`] holds, as mathematical values.
pub struct BotInformationView {
    pub owner_id: Seq<char>,
}

impl DeepView for BotInformation {
    type V = BotInformationView;

    open spec fn deep_view(&self) -> BotInformationView {
        BotInformationView {
            owner_id: self.owner_id.deep_view(),
        }
    }
}

impl Clone for BotInformation {
    fn clone(&self) -> (r: Self)
        ensures
            r.deep_view() == self.deep_view(),
    {
        BotInformation {
            owner_id: self.owner_id.clone(),
        }
    }
}

/// A user.
#[derive(Debug, PartialEq, Eq)]
pub struct User {
    /// User id.
    pub id: String,
    /// User username.
    pub username: String,
    /// User avatar.
    pub avatar: Option<Attachment>,
    /// User status.
    pub status: Option<UserStatus>,
    /// User badges.
    pub badges: u32,
    /// User flags.
    pub flags: u8,
    /// User is online.
    pub online: bool,
    /// The bot information.
    pub bot: Option<BotInformation>,
}

/// What a [`User`] holds, as mathematical values.
pub struct UserView {
    pub id: Seq<char>,
    pub username: Seq<char>,
    pub avatar: Option<AttachmentView>,
    pub status: Option<UserStatusView>,
    pub badges: u32,
    pub flags: u8,
    pub online: bool,
    pub bot: Option<BotInformationView>,
}

impl DeepView for User {
    type V = UserView;

    open spec fn deep_view(&self) -> UserView {
        UserView {
            id: self.id.deep_view(),
            username: self.username.deep_view(),
            avatar: self.avatar.deep_view(),
            status: self.status.deep_view(),
            badges: self.badges,
            flags: self.flags,
            online: self.online,
            bot: self.bot.deep_view(),
        }
    }
}

impl Clone for User {
    fn clone(&self) -> (r: Self)
        ensures
            r.deep_view() == self.deep_view(),
    {
        User {
            id: self.id.clone(),
            username: self.username.clone(),
            avatar: self.avatar.clone(),
            status: self.status.clone(),
            badges: self.badges,
            flags: self.flags,
            online: self.online,
            bot: self.bot.clone(),
        }
    }
}

impl User {
    /// Returns if the user is a bot.
    pub fn is_bot(&self) -> (r: bool)
        ensures
            r == self.bot is Some,
    {
        self.bot.is_some()
    }
}

} // verus!
