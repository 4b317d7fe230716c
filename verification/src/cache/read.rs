//! Reading the cache as a whole: copies of its maps, and the entities that a
//! filter accepts.

use vstd::prelude::*;
use ahash::AHashMap;
use crate::cache::{Cache, Channels, Members, Servers, Users};
use crate::cache::lemmas::{key_index, lemma_enumeration_rebuilds, lemma_with_entries_step};
use crate::cache::model::with_entries;
use crate::cache::tables::{
    channel_entries, channels_insert, channels_new, member_entries, members_insert, members_new,
    server_entries, servers_insert, servers_new, user_entries, users_insert, users_new,
};
use crate::models::channel::Channel;
use crate::models::server::{Member, MemberID, MemberIDView, Server};
use crate::models::user::User;

verus! {

/// Whether `filter` can give `verdict` on a value that holds `held`.
pub open spec fn judged<V: DeepView, F: Fn(&V) -> bool>(filter: F, held: V::V, verdict: bool) -> bool {
    exists|v: V| #[trigger] v.deep_view() == held && filter.ensures((&v,), verdict)
}

/// The positions in `pairs` of the values that `filter` accepts, in rising order.
fn accepted<K, V: DeepView, F: Fn(&V) -> bool>(pairs: &Vec<(&K, &V)>, filter: F) -> (kept: Vec<
    usize,
>)
    requires
        forall|v: &V| filter.requires((v,)),
    ensures
        forall|t: int|
            0 <= t < kept@.len() ==> (#[trigger] kept@[t]) < pairs@.len() && judged(
                filter,
                pairs@[kept@[t] as int].1.deep_view(),
                true,
            ),
        forall|s: int, t: int| 0 <= s < t < kept@.len() ==> kept@[s] < kept@[t],
        forall|j: int|
            0 <= j < pairs@.len() ==> kept@.contains(j as usize) || judged(
                filter,
                (#[trigger] pairs@[j]).1.deep_view(),
                false,
            ),
{
    let mut kept: Vec<usize> = Vec::new();
    let mut i: usize = 0;
    while i < pairs.len()
        invariant
            i <= pairs@.len(),
            forall|v: &V| filter.requires((v,)),
            forall|t: int|
                0 <= t < kept@.len() ==> (#[trigger] kept@[t]) < i && judged(
                    filter,
                    pairs@[kept@[t] as int].1.deep_view(),
                    true,
                ),
            forall|s: int, t: int| 0 <= s < t < kept@.len() ==> kept@[s] < kept@[t],
            forall|j: int|
                0 <= j < i ==> kept@.contains(j as usize) || judged(
                    filter,
                    (#[trigger] pairs@[j]).1.deep_view(),
                    false,
                ),
        decreases pairs@.len() - i,
    {
        let value: &V = pairs[i].1;
        let ghost before = kept@;
        let verdict = filter(value);
        assert(judged(filter, pairs@[i as int].1.deep_view(), verdict)) by {
            assert((*value).deep_view() == pairs@[i as int].1.deep_view());
        }
        if verdict {
            kept.push(i);
            assert(kept@[before.len() as int] == i);
            assert forall|j: int| 0 <= j < i + 1 implies kept@.contains(j as usize) || judged(
                filter,
                (#[trigger] pairs@[j]).1.deep_view(),
                false,
            ) by {
                if j < i && before.contains(j as usize) {
                    let t = choose|t: int| 0 <= t < before.len() && before[t] == j as usize;
                    assert(kept@[t] == j as usize);
                }
            }
        }
        i += 1;
    }
    kept
}

impl Users {
    /// A copy of the table as a map.
    pub fn all(&self) -> (r: AHashMap<String, User>)
        ensures
            user_entries(r) == self@,
    {
        let pairs = self.pairs();
        let mut copy = users_new();
        assert(user_entries(copy) =~= Map::empty());
        let mut i: usize = 0;
        while i < pairs.len()
            invariant
                i <= pairs@.len(),
                user_entries(copy) == with_entries(Map::empty(), pairs.deep_view().take(i as int)),
            decreases pairs@.len() - i,
        {
            proof {
                lemma_with_entries_step(Map::empty(), pairs.deep_view(), i as int);
            }
            users_insert(&mut copy, pairs[i].0.clone(), pairs[i].1.clone());
            i += 1;
        }
        proof {
            assert(pairs.deep_view().take(i as int) =~= pairs.deep_view());
            lemma_enumeration_rebuilds(pairs.deep_view(), self@);
        }
        copy
    }

    /// Filter the users of the table.
    ///
    /// Returned are the stored users that the filter accepts, each once, in no
    /// particular order.
    pub fn filter(&self, filter: impl Fn(&User) -> bool) -> (r: Vec<User>)
        requires
            self.wf(),
            forall|user: &User| filter.requires((user,)),
        ensures
            forall|t: int|
                0 <= t < r@.len() ==> self@.contains_pair(
                    (#[trigger] r@[t]).id@,
                    r@[t].deep_view(),
                ) && judged(filter, r@[t].deep_view(), true),
            forall|s: int, t: int| 0 <= s < t < r@.len() ==> r@[s].id@ != r@[t].id@,
            forall|id: Seq<char>| #[trigger]
                self@.contains_key(id) ==> (exists|t: int|
                    0 <= t < r@.len() && (#[trigger] r@[t]).id@ == id) || judged(
                    filter,
                    self@[id],
                    false,
                ),
    {
        let pairs = self.pairs();
        let kept = accepted(&pairs, filter);
        let mut r: Vec<User> = Vec::new();
        let mut t: usize = 0;
        while t < kept.len()
            invariant
                t <= kept@.len(),
                r@.len() == t,
                forall|s: int| 0 <= s < kept@.len() ==> (#[trigger] kept@[s]) < pairs@.len(),
                forall|s: int|
                    0 <= s < t ==> (#[trigger] r@[s]).deep_view() == pairs@[kept@[s] as int].1.deep_view(),
            decreases kept@.len() - t,
        {
            r.push(pairs[kept[t]].1.clone());
            t += 1;
        }
        proof {
            let listed = pairs.deep_view();
            assert forall|s: int| 0 <= s < r@.len() implies (#[trigger] r@[s]).deep_view()
                == listed[kept@[s] as int].1 && r@[s].id@ == listed[kept@[s] as int].0 by {
                assert(self@.contains_pair(
                    listed[kept@[s] as int].0,
                    listed[kept@[s] as int].1,
                ));
            }
            assert forall|id: Seq<char>| #[trigger] self@.contains_key(id) implies (exists|
                t: int,
            |
                0 <= t < r@.len() && (#[trigger] r@[t]).id@ == id) || judged(
                filter,
                self@[id],
                false,
            ) by {
                let j = key_index(listed, id);
                assert(self@.contains_pair(listed[j].0, listed[j].1));
                assert(pairs@[j].1.deep_view() == listed[j].1);
                if kept@.contains(j as usize) {
                    let t = choose|t: int| 0 <= t < kept@.len() && kept@[t] == j as usize;
                    assert(r@[t].id@ == id);
                }
            }
        }
        r
    }
}

impl Channels {
    /// A copy of the table as a map.
    pub fn all(&self) -> (r: AHashMap<String, Channel>)
        ensures
            channel_entries(r) == self@,
    {
        let pairs = self.pairs();
        let mut copy = channels_new();
        assert(channel_entries(copy) =~= Map::empty());
        let mut i: usize = 0;
        while i < pairs.len()
            invariant
                i <= pairs@.len(),
                channel_entries(copy) == with_entries(Map::empty(), pairs.deep_view().take(i as int)),
            decreases pairs@.len() - i,
        {
            proof {
                lemma_with_entries_step(Map::empty(), pairs.deep_view(), i as int);
            }
            channels_insert(&mut copy, pairs[i].0.clone(), pairs[i].1.clone());
            i += 1;
        }
        proof {
            assert(pairs.deep_view().take(i as int) =~= pairs.deep_view());
            lemma_enumeration_rebuilds(pairs.deep_view(), self@);
        }
        copy
    }

    /// Filter the channels of the table.
    ///
    /// Returned are the stored channels that the filter accepts, each once, in no
    /// particular order.
    pub fn filter(&self, filter: impl Fn(&Channel) -> bool) -> (r: Vec<Channel>)
        requires
            self.wf(),
            forall|channel: &Channel| filter.requires((channel,)),
        ensures
            forall|t: int|
                0 <= t < r@.len() ==> self@.contains_pair(
                    (#[trigger] r@[t]).deep_view().id(),
                    r@[t].deep_view(),
                ) && judged(filter, r@[t].deep_view(), true),
            forall|s: int, t: int| 0 <= s < t < r@.len() ==> r@[s].deep_view().id() != r@[t].deep_view().id(),
            forall|id: Seq<char>| #[trigger]
                self@.contains_key(id) ==> (exists|t: int|
                    0 <= t < r@.len() && (#[trigger] r@[t]).deep_view().id() == id) || judged(
                    filter,
                    self@[id],
                    false,
                ),
    {
        let pairs = self.pairs();
        let kept = accepted(&pairs, filter);
        let mut r: Vec<Channel> = Vec::new();
        let mut t: usize = 0;
        while t < kept.len()
            invariant
                t <= kept@.len(),
                r@.len() == t,
                forall|s: int| 0 <= s < kept@.len() ==> (#[trigger] kept@[s]) < pairs@.len(),
                forall|s: int|
                    0 <= s < t ==> (#[trigger] r@[s]).deep_view() == pairs@[kept@[s] as int].1.deep_view(),
            decreases kept@.len() - t,
        {
            r.push(pairs[kept[t]].1.clone());
            t += 1;
        }
        proof {
            let listed = pairs.deep_view();
            assert forall|s: int| 0 <= s < r@.len() implies (#[trigger] r@[s]).deep_view()
                == listed[kept@[s] as int].1 && r@[s].deep_view().id() == listed[kept@[s] as int].0 by {
                assert(self@.contains_pair(
                    listed[kept@[s] as int].0,
                    listed[kept@[s] as int].1,
                ));
            }
            assert forall|id: Seq<char>| #[trigger] self@.contains_key(id) implies (exists|
                t: int,
            |
                0 <= t < r@.len() && (#[trigger] r@[t]).deep_view().id() == id) || judged(
                filter,
                self@[id],
                false,
            ) by {
                let j = key_index(listed, id);
                assert(self@.contains_pair(listed[j].0, listed[j].1));
                assert(pairs@[j].1.deep_view() == listed[j].1);
                if kept@.contains(j as usize) {
                    let t = choose|t: int| 0 <= t < kept@.len() && kept@[t] == j as usize;
                    assert(r@[t].deep_view().id() == id);
                }
            }
        }
        r
    }
}

impl Servers {
    /// A copy of the table as a map.
    pub fn all(&self) -> (r: AHashMap<String, Server>)
        ensures
            server_entries(r) == self@,
    {
        let pairs = self.pairs();
        let mut copy = servers_new();
        assert(server_entries(copy) =~= Map::empty());
        let mut i: usize = 0;
        while i < pairs.len()
            invariant
                i <= pairs@.len(),
                server_entries(copy) == with_entries(Map::empty(), pairs.deep_view().take(i as int)),
            decreases pairs@.len() - i,
        {
            proof {
                lemma_with_entries_step(Map::empty(), pairs.deep_view(), i as int);
            }
            servers_insert(&mut copy, pairs[i].0.clone(), pairs[i].1.clone());
            i += 1;
        }
        proof {
            assert(pairs.deep_view().take(i as int) =~= pairs.deep_view());
            lemma_enumeration_rebuilds(pairs.deep_view(), self@);
        }
        copy
    }

    /// Filter the servers of the table.
    ///
    /// Returned are the stored servers that the filter accepts, each once, in no
    /// particular order.
    pub fn filter(&self, filter: impl Fn(&Server) -> bool) -> (r: Vec<Server>)
        requires
            self.wf(),
            forall|server: &Server| filter.requires((server,)),
        ensures
            forall|t: int|
                0 <= t < r@.len() ==> self@.contains_pair(
                    (#[trigger] r@[t]).id@,
                    r@[t].deep_view(),
                ) && judged(filter, r@[t].deep_view(), true),
            forall|s: int, t: int| 0 <= s < t < r@.len() ==> r@[s].id@ != r@[t].id@,
            forall|id: Seq<char>| #[trigger]
                self@.contains_key(id) ==> (exists|t: int|
                    0 <= t < r@.len() && (#[trigger] r@[t]).id@ == id) || judged(
                    filter,
                    self@[id],
                    false,
                ),
    {
        let pairs = self.pairs();
        let kept = accepted(&pairs, filter);
        let mut r: Vec<Server> = Vec::new();
        let mut t: usize = 0;
        while t < kept.len()
            invariant
                t <= kept@.len(),
                r@.len() == t,
                forall|s: int| 0 <= s < kept@.len() ==> (#[trigger] kept@[s]) < pairs@.len(),
                forall|s: int|
                    0 <= s < t ==> (#[trigger] r@[s]).deep_view() == pairs@[kept@[s] as int].1.deep_view(),
            decreases kept@.len() - t,
        {
            r.push(pairs[kept[t]].1.clone());
            t += 1;
        }
        proof {
            let listed = pairs.deep_view();
            assert forall|s: int| 0 <= s < r@.len() implies (#[trigger] r@[s]).deep_view()
                == listed[kept@[s] as int].1 && r@[s].id@ == listed[kept@[s] as int].0 by {
                assert(self@.contains_pair(
                    listed[kept@[s] as int].0,
                    listed[kept@[s] as int].1,
                ));
            }
            assert forall|id: Seq<char>| #[trigger] self@.contains_key(id) implies (exists|
                t: int,
            |
                0 <= t < r@.len() && (#[trigger] r@[t]).id@ == id) || judged(
                filter,
                self@[id],
                false,
            ) by {
                let j = key_index(listed, id);
                assert(self@.contains_pair(listed[j].0, listed[j].1));
                assert(pairs@[j].1.deep_view() == listed[j].1);
                if kept@.contains(j as usize) {
                    let t = choose|t: int| 0 <= t < kept@.len() && kept@[t] == j as usize;
                    assert(r@[t].id@ == id);
                }
            }
        }
        r
    }
}

impl Members {
    /// A copy of the table as a map.
    pub fn all(&self) -> (r: AHashMap<MemberID, Member>)
        ensures
            member_entries(r) == self@,
    {
        let pairs = self.pairs();
        let mut copy = members_new();
        assert(member_entries(copy) =~= Map::empty());
        let mut i: usize = 0;
        while i < pairs.len()
            invariant
                i <= pairs@.len(),
                member_entries(copy) == with_entries(Map::empty(), pairs.deep_view().take(i as int)),
            decreases pairs@.len() - i,
        {
            proof {
                lemma_with_entries_step(Map::empty(), pairs.deep_view(), i as int);
            }
            members_insert(&mut copy, pairs[i].0.clone(), pairs[i].1.clone());
            i += 1;
        }
        proof {
            assert(pairs.deep_view().take(i as int) =~= pairs.deep_view());
            lemma_enumeration_rebuilds(pairs.deep_view(), self@);
        }
        copy
    }

    /// Filter the members of the table.
    ///
    /// Returned are the stored members that the filter accepts, each once, in no
    /// particular order.
    pub fn filter(&self, filter: impl Fn(&Member) -> bool) -> (r: Vec<Member>)
        requires
            self.wf(),
            forall|member: &Member| filter.requires((member,)),
        ensures
            forall|t: int|
                0 <= t < r@.len() ==> self@.contains_pair(
                    (#[trigger] r@[t]).id.deep_view(),
                    r@[t].deep_view(),
                ) && judged(filter, r@[t].deep_view(), true),
            forall|s: int, t: int| 0 <= s < t < r@.len() ==> r@[s].id.deep_view() != r@[t].id.deep_view(),
            forall|id: MemberIDView| #[trigger]
                self@.contains_key(id) ==> (exists|t: int|
                    0 <= t < r@.len() && (#[trigger] r@[t]).id.deep_view() == id) || judged(
                    filter,
                    self@[id],
                    false,
                ),
    {
        let pairs = self.pairs();
        let kept = accepted(&pairs, filter);
        let mut r: Vec<Member> = Vec::new();
        let mut t: usize = 0;
        while t < kept.len()
            invariant
                t <= kept@.len(),
                r@.len() == t,
                forall|s: int| 0 <= s < kept@.len() ==> (#[trigger] kept@[s]) < pairs@.len(),
                forall|s: int|
                    0 <= s < t ==> (#[trigger] r@[s]).deep_view() == pairs@[kept@[s] as int].1.deep_view(),
            decreases kept@.len() - t,
        {
            r.push(pairs[kept[t]].1.clone());
            t += 1;
        }
        proof {
            let listed = pairs.deep_view();
            assert forall|s: int| 0 <= s < r@.len() implies (#[trigger] r@[s]).deep_view()
                == listed[kept@[s] as int].1 && r@[s].id.deep_view() == listed[kept@[s] as int].0 by {
                assert(self@.contains_pair(
                    listed[kept@[s] as int].0,
                    listed[kept@[s] as int].1,
                ));
            }
            assert forall|id: MemberIDView| #[trigger] self@.contains_key(id) implies (exists|
                t: int,
            |
                0 <= t < r@.len() && (#[trigger] r@[t]).id.deep_view() == id) || judged(
                filter,
                self@[id],
                false,
            ) by {
                let j = key_index(listed, id);
                assert(self@.contains_pair(listed[j].0, listed[j].1));
                assert(pairs@[j].1.deep_view() == listed[j].1);
                if kept@.contains(j as usize) {
                    let t = choose|t: int| 0 <= t < kept@.len() && kept@[t] == j as usize;
                    assert(r@[t].id.deep_view() == id);
                }
            }
        }
        r
    }
}

impl Cache {
    /// Get all users in cache.
    pub fn users(&self) -> (r: AHashMap<String, User>)
        ensures
            user_entries(r) == self@.users,
    {
        self.users.all()
    }

    /// Filter users in cache.
    ///
    /// Returned are the stored users that the filter accepts, each once, in no
    /// particular order.
    pub fn filter_users(&self, filter: impl Fn(&User) -> bool) -> (r: Vec<User>)
        requires
            self.wf(),
            forall|user: &User| filter.requires((user,)),
        ensures
            forall|t: int|
                0 <= t < r@.len() ==> self@.users.contains_pair(
                    (#[trigger] r@[t]).id@,
                    r@[t].deep_view(),
                ) && judged(filter, r@[t].deep_view(), true),
            forall|s: int, t: int| 0 <= s < t < r@.len() ==> r@[s].id@ != r@[t].id@,
            forall|id: Seq<char>| #[trigger]
                self@.users.contains_key(id) ==> (exists|t: int|
                    0 <= t < r@.len() && (#[trigger] r@[t]).id@ == id) || judged(
                    filter,
                    self@.users[id],
                    false,
                ),
    {
        self.users.filter(filter)
    }

    /// Get all channels in cache.
    pub fn channels(&self) -> (r: AHashMap<String, Channel>)
        ensures
            channel_entries(r) == self@.channels,
    {
        self.channels.all()
    }

    /// Filter channels in cache.
    ///
    /// Returned are the stored channels that the filter accepts, each once, in no
    /// particular order.
    pub fn filter_channels(&self, filter: impl Fn(&Channel) -> bool) -> (r: Vec<Channel>)
        requires
            self.wf(),
            forall|channel: &Channel| filter.requires((channel,)),
        ensures
            forall|t: int|
                0 <= t < r@.len() ==> self@.channels.contains_pair(
                    (#[trigger] r@[t]).deep_view().id(),
                    r@[t].deep_view(),
                ) && judged(filter, r@[t].deep_view(), true),
            forall|s: int, t: int| 0 <= s < t < r@.len() ==> r@[s].deep_view().id() != r@[t].deep_view().id(),
            forall|id: Seq<char>| #[trigger]
                self@.channels.contains_key(id) ==> (exists|t: int|
                    0 <= t < r@.len() && (#[trigger] r@[t]).deep_view().id() == id) || judged(
                    filter,
                    self@.channels[id],
                    false,
                ),
    {
        self.channels.filter(filter)
    }

    /// Get all servers in cache.
    pub fn servers(&self) -> (r: AHashMap<String, Server>)
        ensures
            server_entries(r) == self@.servers,
    {
        self.servers.all()
    }

    /// Filter servers in cache.
    ///
    /// Returned are the stored servers that the filter accepts, each once, in no
    /// particular order.
    pub fn filter_servers(&self, filter: impl Fn(&Server) -> bool) -> (r: Vec<Server>)
        requires
            self.wf(),
            forall|server: &Server| filter.requires((server,)),
        ensures
            forall|t: int|
                0 <= t < r@.len() ==> self@.servers.contains_pair(
                    (#[trigger] r@[t]).id@,
                    r@[t].deep_view(),
                ) && judged(filter, r@[t].deep_view(), true),
            forall|s: int, t: int| 0 <= s < t < r@.len() ==> r@[s].id@ != r@[t].id@,
            forall|id: Seq<char>| #[trigger]
                self@.servers.contains_key(id) ==> (exists|t: int|
                    0 <= t < r@.len() && (#[trigger] r@[t]).id@ == id) || judged(
                    filter,
                    self@.servers[id],
                    false,
                ),
    {
        self.servers.filter(filter)
    }

    /// Get all members in cache.
    pub fn members(&self) -> (r: AHashMap<MemberID, Member>)
        ensures
            member_entries(r) == self@.members,
    {
        self.members.all()
    }

    /// Filter members in cache.
    ///
    /// Returned are the stored members that the filter accepts, each once, in no
    /// particular order.
    pub fn filter_members(&self, filter: impl Fn(&Member) -> bool) -> (r: Vec<Member>)
        requires
            self.wf(),
            forall|member: &Member| filter.requires((member,)),
        ensures
            forall|t: int|
                0 <= t < r@.len() ==> self@.members.contains_pair(
                    (#[trigger] r@[t]).id.deep_view(),
                    r@[t].deep_view(),
                ) && judged(filter, r@[t].deep_view(), true),
            forall|s: int, t: int| 0 <= s < t < r@.len() ==> r@[s].id.deep_view() != r@[t].id.deep_view(),
            forall|id: MemberIDView| #[trigger]
                self@.members.contains_key(id) ==> (exists|t: int|
                    0 <= t < r@.len() && (#[trigger] r@[t]).id.deep_view() == id) || judged(
                    filter,
                    self@.members[id],
                    false,
                ),
    {
        self.members.filter(filter)
    }
}

} // verus!
