//! The four hash maps behind the cache, and what is taken on trust about them.
//!
//! The maps are [`ahash::AHashMap`]s. Verus cannot look inside one, so each map's
//! contents are given a name here, and every method of the map that the cache calls
//! goes through a small function whose contract says, over that name, what the
//! method does. These contracts are not proved: they restate the documentation
//! of `AHashMap`, which forwards to `std::collections::HashMap`.

use vstd::prelude::*;
use ahash::AHashMap;
use crate::models::channel::{Channel, ChannelView};
use crate::models::server::{Member, MemberID, MemberIDView, MemberView, Server, ServerView};
use crate::models::user::{User, UserView};

verus! {

/// `ahash::AHashMap`, a hash map that hashes with `ahash::RandomState`.
#[verifier::external_type_specification]
#[verifier::external_body]
#[verifier::reject_recursive_types(K)]
#[verifier::reject_recursive_types(V)]
#[verifier::reject_recursive_types(S)]
pub struct ExAHashMap<K, V, S>(AHashMap<K, V, S>);

/// `ahash::RandomState`, the hasher state that an `AHashMap` is built with by default.
#[verifier::external_type_specification]
#[verifier::external_body]
pub struct ExRandomState(ahash::RandomState);

/// The entries of a map of users: each key that is present, with the value stored under it.
pub uninterp spec fn user_entries(m: AHashMap<String, User>) -> Map<Seq<char>, UserView>;

/// `AHashMap::new`: a map without entries.
#[verifier::external_body]
pub(crate) fn users_new() -> (m: AHashMap<String, User>)
    ensures
        forall|k: Seq<char>| !user_entries(m).contains_key(k),
{
    AHashMap::new()
}

/// `AHashMap::get`: the value stored under `key`, if the key is present.
#[verifier::external_body]
pub(crate) fn users_get<'a>(m: &'a AHashMap<String, User>, key: &String) -> (r: Option<&'a User>)
    ensures
        r.deep_view() == user_entries(*m).get(key.deep_view()),
{
    m.get(key)
}

/// `AHashMap::insert`: afterwards `key` maps to `value`; every other entry is as before.
#[verifier::external_body]
pub(crate) fn users_insert(m: &mut AHashMap<String, User>, key: String, value: User)
    ensures
        user_entries(*final(m)) == user_entries(*old(m)).insert(key.deep_view(), value.deep_view()),
{
    m.insert(key, value);
}

/// `HashMap::iter`, reached through `AHashMap`'s `Deref`, collected into a vector: every
/// entry of the map exactly once, in an order that is not specified.
#[verifier::external_body]
pub(crate) fn users_iter<'a>(m: &'a AHashMap<String, User>) -> (r: Vec<(&'a String, &'a User)>)
    ensures
        forall|i: int|
            0 <= i < r@.len() ==> #[trigger] user_entries(*m).contains_pair(
                r@[i].0.deep_view(),
                r@[i].1.deep_view(),
            ),
        forall|i: int, j: int|
            0 <= i < j < r@.len() ==> r@[i].0.deep_view() != r@[j].0.deep_view(),
        forall|k: Seq<char>|
            user_entries(*m).contains_key(k) ==> exists|i: int|
                0 <= i < r@.len() && #[trigger] r@[i].0.deep_view() == k,
{
    m.iter().collect()
}

/// The entries of a map of channels: each key that is present, with the value stored under it.
pub uninterp spec fn channel_entries(m: AHashMap<String, Channel>) -> Map<Seq<char>, ChannelView>;

/// `AHashMap::new`: a map without entries.
#[verifier::external_body]
pub(crate) fn channels_new() -> (m: AHashMap<String, Channel>)
    ensures
        forall|k: Seq<char>| !channel_entries(m).contains_key(k),
{
    AHashMap::new()
}

/// `AHashMap::get`: the value stored under `key`, if the key is present.
#[verifier::external_body]
pub(crate) fn channels_get<'a>(m: &'a AHashMap<String, Channel>, key: &String) -> (r: Option<&'a Channel>)
    ensures
        r.deep_view() == channel_entries(*m).get(key.deep_view()),
{
    m.get(key)
}

/// `AHashMap::insert`: afterwards `key` maps to `value`; every other entry is as before.
#[verifier::external_body]
pub(crate) fn channels_insert(m: &mut AHashMap<String, Channel>, key: String, value: Channel)
    ensures
        channel_entries(*final(m)) == channel_entries(*old(m)).insert(key.deep_view(), value.deep_view()),
{
    m.insert(key, value);
}

/// `AHashMap::remove`: afterwards `key` is absent; every other entry is as before.
#[verifier::external_body]
pub(crate) fn channels_remove(m: &mut AHashMap<String, Channel>, key: &String)
    ensures
        channel_entries(*final(m)) == channel_entries(*old(m)).remove(key.deep_view()),
{
    m.remove(key);
}

/// `HashMap::iter`, reached through `AHashMap`'s `Deref`, collected into a vector: every
/// entry of the map exactly once, in an order that is not specified.
#[verifier::external_body]
pub(crate) fn channels_iter<'a>(m: &'a AHashMap<String, Channel>) -> (r: Vec<(&'a String, &'a Channel)>)
    ensures
        forall|i: int|
            0 <= i < r@.len() ==> #[trigger] channel_entries(*m).contains_pair(
                r@[i].0.deep_view(),
                r@[i].1.deep_view(),
            ),
        forall|i: int, j: int|
            0 <= i < j < r@.len() ==> r@[i].0.deep_view() != r@[j].0.deep_view(),
        forall|k: Seq<char>|
            channel_entries(*m).contains_key(k) ==> exists|i: int|
                0 <= i < r@.len() && #[trigger] r@[i].0.deep_view() == k,
{
    m.iter().collect()
}

/// The entries of a map of servers: each key that is present, with the value stored under it.
pub uninterp spec fn server_entries(m: AHashMap<String, Server>) -> Map<Seq<char>, ServerView>;

/// `AHashMap::new`: a map without entries.
#[verifier::external_body]
pub(crate) fn servers_new() -> (m: AHashMap<String, Server>)
    ensures
        forall|k: Seq<char>| !server_entries(m).contains_key(k),
{
    AHashMap::new()
}

/// `AHashMap::get`: the value stored under `key`, if the key is present.
#[verifier::external_body]
pub(crate) fn servers_get<'a>(m: &'a AHashMap<String, Server>, key: &String) -> (r: Option<&'a Server>)
    ensures
        r.deep_view() == server_entries(*m).get(key.deep_view()),
{
    m.get(key)
}

/// `AHashMap::insert`: afterwards `key` maps to `value`; every other entry is as before.
#[verifier::external_body]
pub(crate) fn servers_insert(m: &mut AHashMap<String, Server>, key: String, value: Server)
    ensures
        server_entries(*final(m)) == server_entries(*old(m)).insert(key.deep_view(), value.deep_view()),
{
    m.insert(key, value);
}

/// `AHashMap::remove`: afterwards `key` is absent; every other entry is as before.
#[verifier::external_body]
pub(crate) fn servers_remove(m: &mut AHashMap<String, Server>, key: &String)
    ensures
        server_entries(*final(m)) == server_entries(*old(m)).remove(key.deep_view()),
{
    m.remove(key);
}

/// `HashMap::len`, reached through `AHashMap`'s `Deref`: the number of entries.
#[verifier::external_body]
pub(crate) fn servers_len(m: &AHashMap<String, Server>) -> (n: usize)
    ensures
        n == server_entries(*m).len(),
{
    m.len()
}

/// `HashMap::iter`, reached through `AHashMap`'s `Deref`, collected into a vector: every
/// entry of the map exactly once, in an order that is not specified.
#[verifier::external_body]
pub(crate) fn servers_iter<'a>(m: &'a AHashMap<String, Server>) -> (r: Vec<(&'a String, &'a Server)>)
    ensures
        forall|i: int|
            0 <= i < r@.len() ==> #[trigger] server_entries(*m).contains_pair(
                r@[i].0.deep_view(),
                r@[i].1.deep_view(),
            ),
        forall|i: int, j: int|
            0 <= i < j < r@.len() ==> r@[i].0.deep_view() != r@[j].0.deep_view(),
        forall|k: Seq<char>|
            server_entries(*m).contains_key(k) ==> exists|i: int|
                0 <= i < r@.len() && #[trigger] r@[i].0.deep_view() == k,
{
    m.iter().collect()
}

/// The entries of a map of members: each key that is present, with the value stored under it.
pub uninterp spec fn member_entries(m: AHashMap<MemberID, Member>) -> Map<MemberIDView, MemberView>;

/// `AHashMap::new`: a map without entries.
#[verifier::external_body]
pub(crate) fn members_new() -> (m: AHashMap<MemberID, Member>)
    ensures
        forall|k: MemberIDView| !member_entries(m).contains_key(k),
{
    AHashMap::new()
}

/// `AHashMap::get`: the value stored under `key`, if the key is present.
#[verifier::external_body]
pub(crate) fn members_get<'a>(m: &'a AHashMap<MemberID, Member>, key: &MemberID) -> (r: Option<&'a Member>)
    ensures
        r.deep_view() == member_entries(*m).get(key.deep_view()),
{
    m.get(key)
}

/// `AHashMap::insert`: afterwards `key` maps to `value`; every other entry is as before.
#[verifier::external_body]
pub(crate) fn members_insert(m: &mut AHashMap<MemberID, Member>, key: MemberID, value: Member)
    ensures
        member_entries(*final(m)) == member_entries(*old(m)).insert(key.deep_view(), value.deep_view()),
{
    m.insert(key, value);
}

/// `AHashMap::remove`: afterwards `key` is absent; every other entry is as before.
#[verifier::external_body]
pub(crate) fn members_remove(m: &mut AHashMap<MemberID, Member>, key: &MemberID)
    ensures
        member_entries(*final(m)) == member_entries(*old(m)).remove(key.deep_view()),
{
    m.remove(key);
}

/// `HashMap::iter`, reached through `AHashMap`'s `Deref`, collected into a vector: every
/// entry of the map exactly once, in an order that is not specified.
#[verifier::external_body]
pub(crate) fn members_iter<'a>(m: &'a AHashMap<MemberID, Member>) -> (r: Vec<(&'a MemberID, &'a Member)>)
    ensures
        forall|i: int|
            0 <= i < r@.len() ==> #[trigger] member_entries(*m).contains_pair(
                r@[i].0.deep_view(),
                r@[i].1.deep_view(),
            ),
        forall|i: int, j: int|
            0 <= i < j < r@.len() ==> r@[i].0.deep_view() != r@[j].0.deep_view(),
        forall|k: MemberIDView|
            member_entries(*m).contains_key(k) ==> exists|i: int|
                0 <= i < r@.len() && #[trigger] r@[i].0.deep_view() == k,
{
    m.iter().collect()
}

} // verus!
