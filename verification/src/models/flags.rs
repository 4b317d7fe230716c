//! Bit sets carried by users, servers and permission errors.

use vstd::prelude::*;

verus! {

/// User flags.
#[derive(Debug, Clone, Copy, PartialEq, Eq)]
pub struct UserFlags {
    pub bits: u8,
}

impl UserFlags {
    /// User account is suspended.
    pub const SUSPENDED: u8 = 1;

    /// User account was deleted.
    pub const DELETED: u8 = 2;

    /// User account is banned.
    pub const BANNED: u8 = 4;

    /// Every flag that has a meaning.
    pub const ALL: u8 = 7;

    /// The set without flags.
    pub fn empty() -> (r: Self)
        ensures
            r.bits == 0,
    {
        UserFlags { bits: 0 }
    }

    /// The set of the flags in `bits` that have a meaning.
    pub fn from_bits_truncate(bits: u8) -> (r: Self)
        ensures
            r.bits == bits & UserFlags::ALL,
    {
        UserFlags { bits: bits & UserFlags::ALL }
    }

    /// The flags of the set, as bits.
    pub fn bits(&self) -> (r: u8)
        ensures
            r == self.bits,
    {
        self.bits
    }

    /// Whether the set holds every flag of `flags`.
    pub fn contains(&self, flags: u8) -> (r: bool)
        ensures
            r == (self.bits & flags == flags),
    {
        self.bits & flags == flags
    }
}

/// Server flags.
#[derive(Debug, Clone, Copy, PartialEq, Eq)]
pub struct ServerFlags {
    pub bits: u8,
}

impl ServerFlags {
    /// Official Revolt server.
    pub const OFFICIAL_REVOLT_SERVER: u8 = 1;

    /// Verified community server.
    pub const VERIFIED_COMMUNITY_SERVER: u8 = 2;

    /// Every flag that has a meaning.
    pub const ALL: u8 = 3;

    /// The set without flags.
    pub fn empty() -> (r: Self)
        ensures
            r.bits == 0,
    {
        ServerFlags { bits: 0 }
    }

    /// The set of the flags in `bits` that have a meaning.
    pub fn from_bits_truncate(bits: u8) -> (r: Self)
        ensures
            r.bits == bits & ServerFlags::ALL,
    {
        ServerFlags { bits: bits & ServerFlags::ALL }
    }

    /// The flags of the set, as bits.
    pub fn bits(&self) -> (r: u8)
        ensures
            r == self.bits,
    {
        self.bits
    }

    /// Whether the set holds every flag of `flags`.
    pub fn contains(&self, flags: u8) -> (r: bool)
        ensures
            r == (self.bits & flags == flags),
    {
        self.bits & flags == flags
    }
}

/// A set of Revolt permissions.
#[derive(Debug, Clone, Copy, PartialEq, Eq)]
pub struct RevoltPermission {
    pub bits: u64,
}

impl RevoltPermission {
    /// Manage the channel or channels on the server
    pub const MANAGE_CHANNEL: u64 = 1;

    /// Manage the server
    pub const MANAGE_SERVER: u64 = 2;

    /// Manage permissions on servers or channels
    pub const MANAGE_PERMISSIONS: u64 = 4;

    /// Manage roles on server
    pub const MANAGE_ROLE: u64 = 8;

    /// Manage emoji on servers
    pub const MANAGE_CUSTOMISATION: u64 = 16;

    /// Kick other members below their ranking
    pub const KICK_MEMBERS: u64 = 64;

    /// Ban other members below their ranking
    pub const BAN_MEMBERS: u64 = 128;

    /// Timeout other members below their ranking
    pub const TIMEOUT_MEMBERS: u64 = 256;

    /// Assign roles to members below their ranking
    pub const ASSIGN_ROLES: u64 = 512;

    /// Change own nickname
    pub const CHANGE_NICKNAME: u64 = 1024;

    /// Change or remove other's nicknames below their ranking
    pub const MANAGE_NICKNAMES: u64 = 2048;

    /// Change own avatar
    pub const CHANGE_AVATAR: u64 = 4096;

    /// Remove other's avatars below their ranking
    pub const REMOVE_AVATAR: u64 = 8192;

    /// View a channel
    pub const VIEW_CHANNEL: u64 = 1048576;

    /// Read a channel's past message history
    pub const READ_MESSAGE_HISTORY: u64 = 2097152;

    /// Send a message in a channel
    pub const SEND_MESSAGE: u64 = 4194304;

    /// Delete messages in a channel
    pub const MANAGE_MESSAGES: u64 = 8388608;

    /// Manage webhook entries on a channel
    pub const MANAGE_WEBHOOKS: u64 = 16777216;

    /// Create invites to this channel
    pub const INVITE_OTHERS: u64 = 33554432;

    /// Send embedded content in this channel
    pub const SEND_EMBEDS: u64 = 67108864;

    /// Send attachments and media in this channel
    pub const UPLOAD_FILES: u64 = 134217728;

    /// Masquerade messages using custom nickname and avatar
    pub const MASQUERADE: u64 = 268435456;

    /// React to messages with emojis
    pub const REACT: u64 = 536870912;

    /// Connect to a voice channel
    pub const CONNECT: u64 = 1073741824;

    /// Speak in a voice call
    pub const SPEAK: u64 = 2147483648;

    /// Share video in a voice call
    pub const VIDEO: u64 = 4294967296;

    /// Mute other members with lower ranking in a voice call
    pub const MUTE_MEMBERS: u64 = 8589934592;

    /// Deafen other members with lower ranking in a voice call
    pub const DEAFEN_MEMBERS: u64 = 17179869184;

    /// Move members between voice channels
    pub const MOVE_MEMBERS: u64 = 34359738368;

    /// Every flag that has a meaning.
    pub const ALL: u64 = 68718444511;

    /// The set without flags.
    pub fn empty() -> (r: Self)
        ensures
            r.bits == 0,
    {
        RevoltPermission { bits: 0 }
    }

    /// The set of the flags in `bits` that have a meaning.
    pub fn from_bits_truncate(bits: u64) -> (r: Self)
        ensures
            r.bits == bits & RevoltPermission::ALL,
    {
        RevoltPermission { bits: bits & RevoltPermission::ALL }
    }

    /// The flags of the set, as bits.
    pub fn bits(&self) -> (r: u64)
        ensures
            r == self.bits,
    {
        self.bits
    }

    /// Whether the set holds every flag of `flags`.
    pub fn contains(&self, flags: u64) -> (r: bool)
        ensures
            r == (self.bits & flags == flags),
    {
        self.bits & flags == flags
    }
}

} // verus!
